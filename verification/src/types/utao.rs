//! The latest-update block: a series with its newest chapters.

use vstd::prelude::*;
use crate::dom::{
    compile, compiled, element_result, elements_result, lookup_all, lookup_first, required_attr,
    required_attr_of, required_text, required_text_of, select_all, select_first,
};
use crate::error::{BuilderError, BuilderErrorView, ErrorView, RawKumaResult, finished};
use crate::scalar::{absolute_url, absolute_url_of};
use crate::types::{FromElementRef, successes, views};

verus! {

/// One chapter entry of a latest-update block.
#[derive(Clone, Debug)]
pub struct UtaoTitleChapter {
    /// The page of the chapter: an absolute URL.
    pub url: String,
    /// The label of the chapter.
    pub text: String,
}

/// Mathematical model of a [`UtaoTitleChapter`].
pub struct UtaoTitleChapterView {
    pub url: Seq<char>,
    pub text: Seq<char>,
}

impl View for UtaoTitleChapter {
    type V = UtaoTitleChapterView;

    open spec fn view(&self) -> UtaoTitleChapterView {
        UtaoTitleChapterView {
            url: self.url@,
            text: self.text@,
        }
    }
}

/// Collects the fields of a [`UtaoTitleChapter`] one by one; `build` yields the record
/// once every field has been set.
#[derive(Clone, Debug)]
pub struct UtaoTitleChapterBuilder {
    pub url: Option<String>,
    pub text: Option<String>,
}

impl Default for UtaoTitleChapterBuilder {
    fn default() -> (b: UtaoTitleChapterBuilder)
        ensures
            b.url is None,
            b.text is None,
    {
        UtaoTitleChapterBuilder {
            url: None,
            text: None,
        }
    }
}

impl UtaoTitleChapterBuilder {
    /// The name of the first field, in the order of the record, that has
    /// not been set.
    pub open spec fn missing(&self) -> Option<Seq<char>> {
        if self.url is None {
            Some("url"@)
        } else if self.text is None {
            Some("text"@)
        } else {
            None
        }
    }

    /// The record that the fields make up, once none is missing.
    pub open spec fn complete(&self) -> UtaoTitleChapter {
        UtaoTitleChapter {
            url: self.url->Some_0,
            text: self.text->Some_0,
        }
    }

    /// Sets `url`.
    pub fn url(self, value: String) -> (b: UtaoTitleChapterBuilder)
        ensures
            b == (UtaoTitleChapterBuilder {
                url: Some(value),
                text: self.text,
            }),
    {
        UtaoTitleChapterBuilder {
            url: Some(value),
            text: self.text,
        }
    }

    /// Sets `text`.
    pub fn text(self, value: String) -> (b: UtaoTitleChapterBuilder)
        ensures
            b == (UtaoTitleChapterBuilder {
                url: self.url,
                text: Some(value),
            }),
    {
        UtaoTitleChapterBuilder {
            url: self.url,
            text: Some(value),
        }
    }

    /// Yields the record, or names the first field that was never set.
    pub fn build(self) -> (r: Result<UtaoTitleChapter, BuilderError>)
        ensures
            match self.missing() {
                Some(field) => r is Err && r->Err_0@ == BuilderErrorView::UninitializedField(field),
                None => r == Ok::<UtaoTitleChapter, BuilderError>(self.complete()),
            },
    {
        let url = match self.url {
            Some(value) => value,
            None => return Err(BuilderError::UninitializedField(String::from_str("url"))),
        };
        let text = match self.text {
            Some(value) => value,
            None => return Err(BuilderError::UninitializedField(String::from_str("text"))),
        };
        Ok(UtaoTitleChapter { url, text })
    }
}

/// A series in the latest updates, with its newest chapters.
#[derive(Clone, Debug)]
pub struct UtaoTitleData {
    /// The title of the series.
    pub title: String,
    /// The page of the series: an absolute URL.
    pub url: String,
    /// The cover image: an absolute URL.
    pub image: String,
    /// The newest chapters, in document order.
    pub chapters: Vec<UtaoTitleChapter>,
}

/// Mathematical model of a [`UtaoTitleData`].
pub struct UtaoTitleDataView {
    pub title: Seq<char>,
    pub url: Seq<char>,
    pub image: Seq<char>,
    pub chapters: Seq<UtaoTitleChapterView>,
}

impl View for UtaoTitleData {
    type V = UtaoTitleDataView;

    open spec fn view(&self) -> UtaoTitleDataView {
        UtaoTitleDataView {
            title: self.title@,
            url: self.url@,
            image: self.image@,
            chapters: views(self.chapters@),
        }
    }
}

/// Collects the fields of a [`UtaoTitleData`] one by one; `build` yields the record
/// once every field has been set.
#[derive(Clone, Debug)]
pub struct UtaoTitleDataBuilder {
    pub title: Option<String>,
    pub url: Option<String>,
    pub image: Option<String>,
    pub chapters: Option<Vec<UtaoTitleChapter>>,
}

impl Default for UtaoTitleDataBuilder {
    fn default() -> (b: UtaoTitleDataBuilder)
        ensures
            b.title is None,
            b.url is None,
            b.image is None,
            b.chapters is None,
    {
        UtaoTitleDataBuilder {
            title: None,
            url: None,
            image: None,
            chapters: None,
        }
    }
}

impl UtaoTitleDataBuilder {
    /// The name of the first field, in the order of the record, that has
    /// not been set.
    pub open spec fn missing(&self) -> Option<Seq<char>> {
        if self.title is None {
            Some("title"@)
        } else if self.url is None {
            Some("url"@)
        } else if self.image is None {
            Some("image"@)
        } else if self.chapters is None {
            Some("chapters"@)
        } else {
            None
        }
    }

    /// The record that the fields make up, once none is missing.
    pub open spec fn complete(&self) -> UtaoTitleData {
        UtaoTitleData {
            title: self.title->Some_0,
            url: self.url->Some_0,
            image: self.image->Some_0,
            chapters: self.chapters->Some_0,
        }
    }

    /// Sets `title`.
    pub fn title(self, value: String) -> (b: UtaoTitleDataBuilder)
        ensures
            b == (UtaoTitleDataBuilder {
                title: Some(value),
                url: self.url,
                image: self.image,
                chapters: self.chapters,
            }),
    {
        UtaoTitleDataBuilder {
            title: Some(value),
            url: self.url,
            image: self.image,
            chapters: self.chapters,
        }
    }

    /// Sets `url`.
    pub fn url(self, value: String) -> (b: UtaoTitleDataBuilder)
        ensures
            b == (UtaoTitleDataBuilder {
                title: self.title,
                url: Some(value),
                image: self.image,
                chapters: self.chapters,
            }),
    {
        UtaoTitleDataBuilder {
            title: self.title,
            url: Some(value),
            image: self.image,
            chapters: self.chapters,
        }
    }

    /// Sets `image`.
    pub fn image(self, value: String) -> (b: UtaoTitleDataBuilder)
        ensures
            b == (UtaoTitleDataBuilder {
                title: self.title,
                url: self.url,
                image: Some(value),
                chapters: self.chapters,
            }),
    {
        UtaoTitleDataBuilder {
            title: self.title,
            url: self.url,
            image: Some(value),
            chapters: self.chapters,
        }
    }

    /// Sets `chapters`.
    pub fn chapters(self, value: Vec<UtaoTitleChapter>) -> (b: UtaoTitleDataBuilder)
        ensures
            b == (UtaoTitleDataBuilder {
                title: self.title,
                url: self.url,
                image: self.image,
                chapters: Some(value),
            }),
    {
        UtaoTitleDataBuilder {
            title: self.title,
            url: self.url,
            image: self.image,
            chapters: Some(value),
        }
    }

    /// Yields the record, or names the first field that was never set.
    pub fn build(self) -> (r: Result<UtaoTitleData, BuilderError>)
        ensures
            match self.missing() {
                Some(field) => r is Err && r->Err_0@ == BuilderErrorView::UninitializedField(field),
                None => r == Ok::<UtaoTitleData, BuilderError>(self.complete()),
            },
    {
        let title = match self.title {
            Some(value) => value,
            None => return Err(BuilderError::UninitializedField(String::from_str("title"))),
        };
        let url = match self.url {
            Some(value) => value,
            None => return Err(BuilderError::UninitializedField(String::from_str("url"))),
        };
        let image = match self.image {
            Some(value) => value,
            None => return Err(BuilderError::UninitializedField(String::from_str("image"))),
        };
        let chapters = match self.chapters {
            Some(value) => value,
            None => return Err(BuilderError::UninitializedField(String::from_str("chapters"))),
        };
        Ok(UtaoTitleData { title, url, image, chapters })
    }
}

impl UtaoTitleChapter {
    /// The selector of the link of a chapter entry.
    pub fn get_a_selector() -> (r: RawKumaResult<scraper::Selector>)
        ensures
            compiled(r, "a"@),
    {
        compile("a")
    }

    /// The link of a chapter entry.
    pub fn get_title_selector<'a>(data: &scraper::ElementRef<'a>) -> (r: RawKumaResult<
        scraper::ElementRef<'a>,
    >)
        ensures
            element_result(r) == lookup_first(*data, "a"@, "a"@),
    {
        select_first(data, "a", "a")
    }
}

impl<'a> FromElementRef<'a> for UtaoTitleChapter {
    open spec fn extracted(data: scraper::ElementRef<'a>) -> Result<UtaoTitleChapterView, ErrorView> {
        match lookup_first(data, "a"@, "a"@) {
            Err(error) => Err(error),
            Ok(link) => match required_attr_of(link, "href"@, "a"@) {
                Err(error) => Err(error),
                Ok(href) => match absolute_url_of(href) {
                    Err(error) => Err(error),
                    Ok(url) => match required_text_of(link) {
                        Err(error) => Err(error),
                        Ok(text) => Ok(UtaoTitleChapterView { url, text }),
                    },
                },
            },
        }
    }

    fn from_element_ref(data: &scraper::ElementRef<'a>) -> (r: RawKumaResult<UtaoTitleChapter>) {
        let title = Self::get_title_selector(data)?;
        let href = required_attr(&title, "href", "a")?;
        let url = absolute_url(href.as_str())?;
        let text = required_text(&title)?;
        finished(UtaoTitleChapterBuilder::default().url(url).text(text).build())
    }
}

/// The chapter entries of a block, in document order: the items of its
/// chapter list.
pub open spec fn chapter_items_of<'a>(data: scraper::ElementRef<'a>) -> Result<
    Seq<scraper::ElementRef<'a>>,
    ErrorView,
> {
    match lookup_first(data, r#"ul[class="Manga"]"#@, r#"ul[class="Manga"]"#@) {
        Err(error) => Err(error),
        Ok(list) => lookup_all(list, "li"@),
    }
}

impl UtaoTitleData {
    /// The selector of the image box of a block.
    pub fn div_imagu_selector() -> (r: RawKumaResult<scraper::Selector>)
        ensures
            compiled(r, r#"div[class="imgu"]"#@),
    {
        compile(r#"div[class="imgu"]"#)
    }

    /// The image box of a block.
    pub fn get_imgu_div<'a>(html: &scraper::ElementRef<'a>) -> (r: RawKumaResult<
        scraper::ElementRef<'a>,
    >)
        ensures
            element_result(r) == lookup_first(
                *html,
                r#"div[class="imgu"]"#@,
                r#"div[class="imgu"]"#@,
            ),
    {
        select_first(html, r#"div[class="imgu"]"#, r#"div[class="imgu"]"#)
    }

    /// The selector of an image.
    pub fn get_img_selector() -> (r: RawKumaResult<scraper::Selector>)
        ensures
            compiled(r, "img"@),
    {
        compile("img")
    }

    /// The image of an image box.
    pub fn get_image_element<'a>(imgu: &scraper::ElementRef<'a>) -> (r: RawKumaResult<
        scraper::ElementRef<'a>,
    >)
        ensures
            element_result(r) == lookup_first(*imgu, "img"@, "img"@),
    {
        select_first(imgu, "img", "img")
    }

    /// The selector of the link to the series.
    pub fn get_a_series_selector() -> (r: RawKumaResult<scraper::Selector>)
        ensures
            compiled(r, r#"a[class="series"]"#@),
    {
        compile(r#"a[class="series"]"#)
    }

    /// The link to the series in an image box.
    pub fn get_a_series_element<'a>(imgu: &scraper::ElementRef<'a>) -> (r: RawKumaResult<
        scraper::ElementRef<'a>,
    >)
        ensures
            element_result(r) == lookup_first(
                *imgu,
                r#"a[class="series"]"#@,
                r#"a[class="series"]"#@,
            ),
    {
        select_first(imgu, r#"a[class="series"]"#, r#"a[class="series"]"#)
    }

    /// The selector of the chapter list of a block.
    pub fn get_ul_manga_selector() -> (r: RawKumaResult<scraper::Selector>)
        ensures
            compiled(r, r#"ul[class="Manga"]"#@),
    {
        compile(r#"ul[class="Manga"]"#)
    }

    /// The chapter list of a block.
    pub fn get_ul_manga_element<'a>(data: &scraper::ElementRef<'a>) -> (r: RawKumaResult<
        scraper::ElementRef<'a>,
    >)
        ensures
            element_result(r) == lookup_first(
                *data,
                r#"ul[class="Manga"]"#@,
                r#"ul[class="Manga"]"#@,
            ),
    {
        select_first(data, r#"ul[class="Manga"]"#, r#"ul[class="Manga"]"#)
    }

    /// The selector of one chapter entry.
    pub fn get_li_selector() -> (r: RawKumaResult<scraper::Selector>)
        ensures
            compiled(r, "li"@),
    {
        compile("li")
    }

    /// The chapter entries of a block, in document order.
    pub fn get_chapters_elements<'a>(data: &scraper::ElementRef<'a>) -> (r: RawKumaResult<
        Vec<scraper::ElementRef<'a>>,
    >)
        ensures
            elements_result(r) == chapter_items_of(*data),
    {
        let list = Self::get_ul_manga_element(data)?;
        select_all(&list, "li")
    }
}

impl<'a> FromElementRef<'a> for UtaoTitleData {
    open spec fn extracted(data: scraper::ElementRef<'a>) -> Result<UtaoTitleDataView, ErrorView> {
        match lookup_first(data, r#"div[class="imgu"]"#@, r#"div[class="imgu"]"#@) {
            Err(error) => Err(error),
            Ok(imgu) => match lookup_first(imgu, "img"@, "img"@) {
                Err(error) => Err(error),
                Ok(image) => match lookup_first(
                    imgu,
                    r#"a[class="series"]"#@,
                    r#"a[class="series"]"#@,
                ) {
                    Err(error) => Err(error),
                    Ok(link) => match chapter_items_of(data) {
                        Err(error) => Err(error),
                        Ok(items) => match required_attr_of(image, "src"@, "image"@) {
                            Err(error) => Err(error),
                            Ok(src) => match absolute_url_of(src) {
                                Err(error) => Err(error),
                                Ok(image_url) => match required_attr_of(link, "href"@, "a"@) {
                                    Err(error) => Err(error),
                                    Ok(href) => match absolute_url_of(href) {
                                        Err(error) => Err(error),
                                        Ok(url) => match required_attr_of(
                                            link,
                                            "title"@,
                                            r#"a[class="series"]"#@,
                                        ) {
                                            Err(error) => Err(error),
                                            Ok(title) => Ok(
                                                UtaoTitleDataView {
                                                    title,
                                                    url,
                                                    image: image_url,
                                                    chapters: successes(
                                                        items.map_values(
                                                            |e: scraper::ElementRef<'a>|
                                                                UtaoTitleChapter::extracted(e),
                                                        ),
                                                    ),
                                                },
                                            ),
                                        },
                                    },
                                },
                            },
                        },
                    },
                },
            },
        }
    }

    fn from_element_ref(data: &scraper::ElementRef<'a>) -> (r: RawKumaResult<UtaoTitleData>) {
        let imgu = Self::get_imgu_div(data)?;
        let image = Self::get_image_element(&imgu)?;
        let title = Self::get_a_series_element(&imgu)?;
        let items = Self::get_chapters_elements(data)?;
        let chapters = UtaoTitleChapter::from_vec_element(&items)?;
        let src = required_attr(&image, "src", "image")?;
        let image_url = absolute_url(src.as_str())?;
        let href = required_attr(&title, "href", "a")?;
        let url = absolute_url(href.as_str())?;
        let name = required_attr(&title, "title", r#"a[class="series"]"#)?;
        finished(
            UtaoTitleDataBuilder::default().chapters(chapters).image(image_url).url(url).title(
                name,
            ).build(),
        )
    }
}

} // verus!
