//! The reader area of a chapter page and its images.

use vstd::prelude::*;
use crate::dom::{
    attr_of, attr_or_empty, attr_or_empty_of, compile, compiled, element_result,
    elements_result, fragment_of, inner_html_of, lookup_all, lookup_all_in_document,
    lookup_first, parse_fragment, read_attr, read_inner_html, required_attr, required_attr_of,
    select_all, select_all_in_document, select_first, text_result, unescape_entities, unescaped,
};
use crate::error::{BuilderError, BuilderErrorView, ErrorView, RawKumaResult, finished, result_view};
use crate::scalar::{
    absolute_url, absolute_url_of, Decimal, decimal_result_of, DecimalView, parse_float,
    zero_view,
};
use crate::types::{FromElementRef, list_result, successes, views};

verus! {

/// The page images of a chapter, as its reader area lists them.
#[derive(Clone, Debug)]
pub struct ReaderArea {
    /// The images, in the order in which the tree of the decoded markup
    /// stores them.
    pub images: Vec<ReaderAreaImage>,
}

/// Mathematical model of a [`ReaderArea`].
pub struct ReaderAreaView {
    pub images: Seq<ReaderAreaImageView>,
}

impl View for ReaderArea {
    type V = ReaderAreaView;

    open spec fn view(&self) -> ReaderAreaView {
        ReaderAreaView {
            images: views(self.images@),
        }
    }
}

/// Collects the fields of a [`ReaderArea`] one by one; `build` yields the record
/// once every field has been set.
#[derive(Clone, Debug)]
pub struct ReaderAreaBuilder {
    pub images: Option<Vec<ReaderAreaImage>>,
}

impl Default for ReaderAreaBuilder {
    fn default() -> (b: ReaderAreaBuilder)
        ensures
            b.images is None,
    {
        ReaderAreaBuilder {
            images: None,
        }
    }
}

impl ReaderAreaBuilder {
    /// The name of the first field, in the order of the record, that has
    /// not been set.
    pub open spec fn missing(&self) -> Option<Seq<char>> {
        if self.images is None {
            Some("images"@)
        } else {
            None
        }
    }

    /// The record that the fields make up, once none is missing.
    pub open spec fn complete(&self) -> ReaderArea {
        ReaderArea {
            images: self.images->Some_0,
        }
    }

    /// Sets `images`.
    pub fn images(self, value: Vec<ReaderAreaImage>) -> (b: ReaderAreaBuilder)
        ensures
            b == (ReaderAreaBuilder {
                images: Some(value),
            }),
    {
        ReaderAreaBuilder {
            images: Some(value),
        }
    }

    /// Yields the record, or names the first field that was never set.
    pub fn build(self) -> (r: Result<ReaderArea, BuilderError>)
        ensures
            match self.missing() {
                Some(field) => r is Err && r->Err_0@ == BuilderErrorView::UninitializedField(field),
                None => r == Ok::<ReaderArea, BuilderError>(self.complete()),
            },
    {
        let images = match self.images {
            Some(value) => value,
            None => return Err(BuilderError::UninitializedField(String::from_str("images"))),
        };
        Ok(ReaderArea { images })
    }
}

/// One page image of a chapter.
#[derive(Clone, Debug)]
pub struct ReaderAreaImage {
    /// The address of the image: an absolute URL.
    pub url: String,
    /// The width of the image; zero where it is not given.
    pub width: Decimal,
    /// The height of the image; zero where it is not given.
    pub height: Decimal,
    /// The decoding hint; empty where it is not given.
    pub decoding: String,
    /// The alternative text; empty where it is not given.
    pub alt: String,
}

/// Mathematical model of a [`ReaderAreaImage`].
pub struct ReaderAreaImageView {
    pub url: Seq<char>,
    pub width: DecimalView,
    pub height: DecimalView,
    pub decoding: Seq<char>,
    pub alt: Seq<char>,
}

impl View for ReaderAreaImage {
    type V = ReaderAreaImageView;

    open spec fn view(&self) -> ReaderAreaImageView {
        ReaderAreaImageView {
            url: self.url@,
            width: self.width@,
            height: self.height@,
            decoding: self.decoding@,
            alt: self.alt@,
        }
    }
}

/// Collects the fields of a [`ReaderAreaImage`] one by one; `build` yields the record
/// once every field has been set.
#[derive(Clone, Debug)]
pub struct ReaderAreaImageBuilder {
    pub url: Option<String>,
    pub width: Option<Decimal>,
    pub height: Option<Decimal>,
    pub decoding: Option<String>,
    pub alt: Option<String>,
}

impl Default for ReaderAreaImageBuilder {
    fn default() -> (b: ReaderAreaImageBuilder)
        ensures
            b.url is None,
            b.width is None,
            b.height is None,
            b.decoding is None,
            b.alt is None,
    {
        ReaderAreaImageBuilder {
            url: None,
            width: None,
            height: None,
            decoding: None,
            alt: None,
        }
    }
}

impl ReaderAreaImageBuilder {
    /// The name of the first field, in the order of the record, that has
    /// not been set.
    pub open spec fn missing(&self) -> Option<Seq<char>> {
        if self.url is None {
            Some("url"@)
        } else if self.width is None {
            Some("width"@)
        } else if self.height is None {
            Some("height"@)
        } else if self.decoding is None {
            Some("decoding"@)
        } else if self.alt is None {
            Some("alt"@)
        } else {
            None
        }
    }

    /// The record that the fields make up, once none is missing.
    pub open spec fn complete(&self) -> ReaderAreaImage {
        ReaderAreaImage {
            url: self.url->Some_0,
            width: self.width->Some_0,
            height: self.height->Some_0,
            decoding: self.decoding->Some_0,
            alt: self.alt->Some_0,
        }
    }

    /// Sets `url`.
    pub fn url(self, value: String) -> (b: ReaderAreaImageBuilder)
        ensures
            b == (ReaderAreaImageBuilder {
                url: Some(value),
                width: self.width,
                height: self.height,
                decoding: self.decoding,
                alt: self.alt,
            }),
    {
        ReaderAreaImageBuilder {
            url: Some(value),
            width: self.width,
            height: self.height,
            decoding: self.decoding,
            alt: self.alt,
        }
    }

    /// Sets `width`.
    pub fn width(self, value: Decimal) -> (b: ReaderAreaImageBuilder)
        ensures
            b == (ReaderAreaImageBuilder {
                url: self.url,
                width: Some(value),
                height: self.height,
                decoding: self.decoding,
                alt: self.alt,
            }),
    {
        ReaderAreaImageBuilder {
            url: self.url,
            width: Some(value),
            height: self.height,
            decoding: self.decoding,
            alt: self.alt,
        }
    }

    /// Sets `height`.
    pub fn height(self, value: Decimal) -> (b: ReaderAreaImageBuilder)
        ensures
            b == (ReaderAreaImageBuilder {
                url: self.url,
                width: self.width,
                height: Some(value),
                decoding: self.decoding,
                alt: self.alt,
            }),
    {
        ReaderAreaImageBuilder {
            url: self.url,
            width: self.width,
            height: Some(value),
            decoding: self.decoding,
            alt: self.alt,
        }
    }

    /// Sets `decoding`.
    pub fn decoding(self, value: String) -> (b: ReaderAreaImageBuilder)
        ensures
            b == (ReaderAreaImageBuilder {
                url: self.url,
                width: self.width,
                height: self.height,
                decoding: Some(value),
                alt: self.alt,
            }),
    {
        ReaderAreaImageBuilder {
            url: self.url,
            width: self.width,
            height: self.height,
            decoding: Some(value),
            alt: self.alt,
        }
    }

    /// Sets `alt`.
    pub fn alt(self, value: String) -> (b: ReaderAreaImageBuilder)
        ensures
            b == (ReaderAreaImageBuilder {
                url: self.url,
                width: self.width,
                height: self.height,
                decoding: self.decoding,
                alt: Some(value),
            }),
    {
        ReaderAreaImageBuilder {
            url: self.url,
            width: self.width,
            height: self.height,
            decoding: self.decoding,
            alt: Some(value),
        }
    }

    /// Yields the record, or names the first field that was never set.
    pub fn build(self) -> (r: Result<ReaderAreaImage, BuilderError>)
        ensures
            match self.missing() {
                Some(field) => r is Err && r->Err_0@ == BuilderErrorView::UninitializedField(field),
                None => r == Ok::<ReaderAreaImage, BuilderError>(self.complete()),
            },
    {
        let url = match self.url {
            Some(value) => value,
            None => return Err(BuilderError::UninitializedField(String::from_str("url"))),
        };
        let width = match self.width {
            Some(value) => value,
            None => return Err(BuilderError::UninitializedField(String::from_str("width"))),
        };
        let height = match self.height {
            Some(value) => value,
            None => return Err(BuilderError::UninitializedField(String::from_str("height"))),
        };
        let decoding = match self.decoding {
            Some(value) => value,
            None => return Err(BuilderError::UninitializedField(String::from_str("decoding"))),
        };
        let alt = match self.alt {
            Some(value) => value,
            None => return Err(BuilderError::UninitializedField(String::from_str("alt"))),
        };
        Ok(ReaderAreaImage { url, width, height, decoding, alt })
    }
}

/// The images of a reader area: the image elements of the markup that its
/// `noscript` block holds in escaped form, each read as a reader image;
/// those that do not read as one are skipped.
pub open spec fn images_of(data: scraper::ElementRef) -> Result<Seq<ReaderAreaImageView>, ErrorView> {
    match lookup_first(data, "noscript"@, "noscript"@) {
        Err(error) => Err(error),
        Ok(block) => fragment_images_of(&fragment_of(unescaped(inner_html_of(block)))),
    }
}

/// The reader images among the image elements of a piece of markup.
pub open spec fn fragment_images_of<'b>(fragment: &'b scraper::Html) -> Result<
    Seq<ReaderAreaImageView>,
    ErrorView,
> {
    match lookup_all_in_document(fragment, "img"@) {
        Err(error) => Err(error),
        Ok(elements) => Ok(
            successes(
                elements.map_values(|e: scraper::ElementRef<'b>| ReaderAreaImage::extracted(e)),
            ),
        ),
    }
}

impl ReaderArea {
    /// The selector of the reader area.
    pub fn get_reader_area_selector() -> (r: RawKumaResult<scraper::Selector>)
        ensures
            compiled(r, "#readerarea"@),
    {
        compile("#readerarea")
    }

    /// The reader area of a chapter page.
    pub fn get_reader_area_element<'a>(data: &scraper::ElementRef<'a>) -> (r: RawKumaResult<
        scraper::ElementRef<'a>,
    >)
        ensures
            element_result(r) == lookup_first(*data, "#readerarea"@, "#readerarea"@),
    {
        select_first(data, "#readerarea", "#readerarea")
    }

    /// The selector of the block that holds the escaped markup.
    pub fn get_noscript_selector() -> (r: RawKumaResult<scraper::Selector>)
        ensures
            compiled(r, "noscript"@),
    {
        compile("noscript")
    }

    /// The images of a reader area.
    pub fn get_images_data(data: &scraper::ElementRef) -> (r: RawKumaResult<Vec<ReaderAreaImage>>)
        ensures
            list_result(r) == images_of(*data),
    {
        let block = select_first(data, "noscript", "noscript")?;
        let escaped = read_inner_html(&block);
        let plain = unescape_entities(escaped.as_str());
        let fragment = parse_fragment(plain.as_str());
        let elements = ReaderAreaImage::get_reader_area_images_element_from_html(&fragment)?;
        ReaderAreaImage::from_vec_element(&elements)
    }
}

impl<'a> FromElementRef<'a> for ReaderArea {
    open spec fn extracted(data: scraper::ElementRef<'a>) -> Result<ReaderAreaView, ErrorView> {
        match images_of(data) {
            Err(error) => Err(error),
            Ok(images) => Ok(ReaderAreaView { images }),
        }
    }

    fn from_element_ref(data: &scraper::ElementRef<'a>) -> (r: RawKumaResult<ReaderArea>) {
        let images = Self::get_images_data(data)?;
        finished(ReaderAreaBuilder::default().images(images).build())
    }
}

/// A size attribute: zero where the element does not carry it, else its
/// value read as a decimal number.
pub open spec fn size_of(data: scraper::ElementRef, name: Seq<char>) -> Result<
    DecimalView,
    ErrorView,
> {
    match attr_of(data, name) {
        None => Ok(zero_view()),
        Some(raw) => decimal_result_of(raw),
    }
}

/// The address of a reader image: its `src`, made absolute.
pub open spec fn url_data_of(data: scraper::ElementRef) -> Result<Seq<char>, ErrorView> {
    match required_attr_of(data, "src"@, "img"@) {
        Err(error) => Err(error),
        Ok(src) => absolute_url_of(src),
    }
}

fn read_size(data: &scraper::ElementRef, name: &str) -> (r: RawKumaResult<Decimal>)
    ensures
        result_view(r) == size_of(*data, name@),
{
    match read_attr(data, name) {
        None => Ok(Decimal::zero()),
        Some(raw) => parse_float(raw.as_str()),
    }
}

impl ReaderAreaImage {
    /// The selector of one image.
    pub fn get_reader_area_image_selector() -> (r: RawKumaResult<scraper::Selector>)
        ensures
            compiled(r, "img"@),
    {
        compile("img")
    }

    /// The image elements below an element, in document order.
    pub fn get_reader_area_images_element<'a>(data: &scraper::ElementRef<'a>) -> (r: RawKumaResult<
        Vec<scraper::ElementRef<'a>>,
    >)
        ensures
            elements_result(r) == lookup_all(*data, "img"@),
    {
        select_all(data, "img")
    }

    /// The image elements of a piece of markup, in the order in which its
    /// tree stores them.
    pub fn get_reader_area_images_element_from_html<'a>(data: &'a scraper::Html) -> (r:
        RawKumaResult<Vec<scraper::ElementRef<'a>>>)
        ensures
            elements_result(r) == lookup_all_in_document(data, "img"@),
    {
        select_all_in_document(data, "img")
    }

    /// The width of an image; zero where it is not given.
    pub fn get_width_data(data: &scraper::ElementRef) -> (r: RawKumaResult<Decimal>)
        ensures
            result_view(r) == size_of(*data, "width"@),
    {
        read_size(data, "width")
    }

    /// The height of an image; zero where it is not given.
    pub fn get_height_data(data: &scraper::ElementRef) -> (r: RawKumaResult<Decimal>)
        ensures
            result_view(r) == size_of(*data, "height"@),
    {
        read_size(data, "height")
    }

    /// The decoding hint of an image; empty where it is not given.
    pub fn get_decoding_data(data: &scraper::ElementRef) -> (r: RawKumaResult<String>)
        ensures
            text_result(r) == Ok::<Seq<char>, ErrorView>(attr_or_empty_of(*data, "decoding"@)),
    {
        Ok(attr_or_empty(data, "decoding"))
    }

    /// The alternative text of an image; empty where it is not given.
    pub fn get_alt_data(data: &scraper::ElementRef) -> (r: RawKumaResult<String>)
        ensures
            text_result(r) == Ok::<Seq<char>, ErrorView>(attr_or_empty_of(*data, "alt"@)),
    {
        Ok(attr_or_empty(data, "alt"))
    }

    /// The address of an image.
    pub fn get_url_data(data: &scraper::ElementRef) -> (r: RawKumaResult<String>)
        ensures
            text_result(r) == url_data_of(*data),
    {
        let src = required_attr(data, "src", "img")?;
        absolute_url(src.as_str())
    }
}

impl<'a> FromElementRef<'a> for ReaderAreaImage {
    open spec fn extracted(data: scraper::ElementRef<'a>) -> Result<ReaderAreaImageView, ErrorView> {
        match size_of(data, "width"@) {
            Err(error) => Err(error),
            Ok(width) => match size_of(data, "height"@) {
                Err(error) => Err(error),
                Ok(height) => match url_data_of(data) {
                    Err(error) => Err(error),
                    Ok(url) => Ok(
                        ReaderAreaImageView {
                            url,
                            width,
                            height,
                            decoding: attr_or_empty_of(data, "decoding"@),
                            alt: attr_or_empty_of(data, "alt"@),
                        },
                    ),
                },
            },
        }
    }

    fn from_element_ref(data: &scraper::ElementRef<'a>) -> (r: RawKumaResult<ReaderAreaImage>) {
        let width = Self::get_width_data(data)?;
        let height = Self::get_height_data(data)?;
        let decoding = Self::get_decoding_data(data)?;
        let alt = Self::get_alt_data(data)?;
        let url = Self::get_url_data(data)?;
        finished(
            ReaderAreaImageBuilder::default().width(width).height(height).decoding(decoding).alt(
                alt,
            ).url(url).build(),
        )
    }
}

} // verus!
