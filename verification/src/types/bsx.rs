//! The title summary card: a link, a cover image and a rating.

use vstd::prelude::*;
use crate::dom::{
    compile, compiled, element_result, elements_result, lookup_all, lookup_first, required_attr,
    required_attr_of, required_text, required_text_of, select_all, select_first, text_result,
};
use crate::error::{BuilderError, BuilderErrorView, ErrorView, RawKumaResult, finished, result_view};
use crate::scalar::{
    absolute_url, absolute_url_of, Decimal, decimal_result_of, DecimalView, parse_float,
};
use crate::types::{
    FromElementRef, failures, lemma_tolerant_skip_length, lemma_tolerant_skip_order, place_of,
    successes,
};

verus! {

/// A compact card that stands for one series in a listing.
#[derive(Clone, Debug)]
pub struct BsxTitleData {
    /// The title of the series.
    pub title: String,
    /// The page of the series: an absolute URL.
    pub url: String,
    /// The cover image: an absolute URL.
    pub image: String,
    /// The rating, as the card writes it.
    pub rating: Decimal,
}

/// Mathematical model of a [`BsxTitleData`].
pub struct BsxTitleDataView {
    pub title: Seq<char>,
    pub url: Seq<char>,
    pub image: Seq<char>,
    pub rating: DecimalView,
}

impl View for BsxTitleData {
    type V = BsxTitleDataView;

    open spec fn view(&self) -> BsxTitleDataView {
        BsxTitleDataView {
            title: self.title@,
            url: self.url@,
            image: self.image@,
            rating: self.rating@,
        }
    }
}

/// Collects the fields of a [`BsxTitleData`] one by one; `build` yields the record
/// once every field has been set.
#[derive(Clone, Debug)]
pub struct BsxTitleDataBuilder {
    pub title: Option<String>,
    pub url: Option<String>,
    pub image: Option<String>,
    pub rating: Option<Decimal>,
}

impl Default for BsxTitleDataBuilder {
    fn default() -> (b: BsxTitleDataBuilder)
        ensures
            b.title is None,
            b.url is None,
            b.image is None,
            b.rating is None,
    {
        BsxTitleDataBuilder {
            title: None,
            url: None,
            image: None,
            rating: None,
        }
    }
}

impl BsxTitleDataBuilder {
    /// The name of the first field, in the order of the record, that has
    /// not been set.
    pub open spec fn missing(&self) -> Option<Seq<char>> {
        if self.title is None {
            Some("title"@)
        } else if self.url is None {
            Some("url"@)
        } else if self.image is None {
            Some("image"@)
        } else if self.rating is None {
            Some("rating"@)
        } else {
            None
        }
    }

    /// The record that the fields make up, once none is missing.
    pub open spec fn complete(&self) -> BsxTitleData {
        BsxTitleData {
            title: self.title->Some_0,
            url: self.url->Some_0,
            image: self.image->Some_0,
            rating: self.rating->Some_0,
        }
    }

    /// Sets `title`.
    pub fn title(self, value: String) -> (b: BsxTitleDataBuilder)
        ensures
            b == (BsxTitleDataBuilder {
                title: Some(value),
                url: self.url,
                image: self.image,
                rating: self.rating,
            }),
    {
        BsxTitleDataBuilder {
            title: Some(value),
            url: self.url,
            image: self.image,
            rating: self.rating,
        }
    }

    /// Sets `url`.
    pub fn url(self, value: String) -> (b: BsxTitleDataBuilder)
        ensures
            b == (BsxTitleDataBuilder {
                title: self.title,
                url: Some(value),
                image: self.image,
                rating: self.rating,
            }),
    {
        BsxTitleDataBuilder {
            title: self.title,
            url: Some(value),
            image: self.image,
            rating: self.rating,
        }
    }

    /// Sets `image`.
    pub fn image(self, value: String) -> (b: BsxTitleDataBuilder)
        ensures
            b == (BsxTitleDataBuilder {
                title: self.title,
                url: self.url,
                image: Some(value),
                rating: self.rating,
            }),
    {
        BsxTitleDataBuilder {
            title: self.title,
            url: self.url,
            image: Some(value),
            rating: self.rating,
        }
    }

    /// Sets `rating`.
    pub fn rating(self, value: Decimal) -> (b: BsxTitleDataBuilder)
        ensures
            b == (BsxTitleDataBuilder {
                title: self.title,
                url: self.url,
                image: self.image,
                rating: Some(value),
            }),
    {
        BsxTitleDataBuilder {
            title: self.title,
            url: self.url,
            image: self.image,
            rating: Some(value),
        }
    }

    /// Yields the record, or names the first field that was never set.
    pub fn build(self) -> (r: Result<BsxTitleData, BuilderError>)
        ensures
            match self.missing() {
                Some(field) => r is Err && r->Err_0@ == BuilderErrorView::UninitializedField(field),
                None => r == Ok::<BsxTitleData, BuilderError>(self.complete()),
            },
    {
        let title = match self.title {
            Some(value) => value,
            None => return Err(BuilderError::UninitializedField(String::from_str("title"))),
        };
        let url = match self.url {
            Some(value) => value,
            None => return Err(BuilderError::UninitializedField(String::from_str("url"))),
        };
        let image = match self.image {
            Some(value) => value,
            None => return Err(BuilderError::UninitializedField(String::from_str("image"))),
        };
        let rating = match self.rating {
            Some(value) => value,
            None => return Err(BuilderError::UninitializedField(String::from_str("rating"))),
        };
        Ok(BsxTitleData { title, url, image, rating })
    }
}

/// The title and the link of a card.
#[derive(Clone, Debug)]
pub struct TitleData {
    /// The title of the series.
    pub title: String,
    /// The page of the series: an absolute URL.
    pub url: String,
}

/// Mathematical model of a [`TitleData`].
pub struct TitleDataView {
    pub title: Seq<char>,
    pub url: Seq<char>,
}

impl View for TitleData {
    type V = TitleDataView;

    open spec fn view(&self) -> TitleDataView {
        TitleDataView {
            title: self.title@,
            url: self.url@,
        }
    }
}

/// The title and the link of a card: the `title` and `href` of its first
/// link.
pub open spec fn title_data_of(data: scraper::ElementRef) -> Result<TitleDataView, ErrorView> {
    match lookup_first(data, "a"@, "a"@) {
        Err(error) => Err(error),
        Ok(link) => match required_attr_of(link, "title"@, "a"@) {
            Err(error) => Err(error),
            Ok(title) => match required_attr_of(link, "href"@, "a"@) {
                Err(error) => Err(error),
                Ok(href) => match absolute_url_of(href) {
                    Err(error) => Err(error),
                    Ok(url) => Ok(TitleDataView { title, url }),
                },
            },
        },
    }
}

/// The cover image of a card: the `src` of its first image.
pub open spec fn img_url_of(data: scraper::ElementRef) -> Result<Seq<char>, ErrorView> {
    match lookup_first(data, "img"@, "img"@) {
        Err(error) => Err(error),
        Ok(image) => match required_attr_of(image, "src"@, "img"@) {
            Err(error) => Err(error),
            Ok(src) => absolute_url_of(src),
        },
    }
}

/// The rating of a card: the first text of its score block, read as a
/// decimal number.
pub open spec fn rating_of(data: scraper::ElementRef) -> Result<DecimalView, ErrorView> {
    match lookup_first(data, r#"div[class="numscore"]"#@, r#"div[class="numscore"]"#@) {
        Err(error) => Err(error),
        Ok(score) => match required_text_of(score) {
            Err(error) => Err(error),
            Ok(text) => decimal_result_of(text),
        },
    }
}

/// The cards below an element under the tolerant policy: every card that
/// reads as a series, in document order.
pub open spec fn cards_of<'a>(scope: scraper::ElementRef<'a>) -> Result<
    Seq<BsxTitleDataView>,
    ErrorView,
> {
    match lookup_all(scope, r#"div[class="bsx"]"#@) {
        Err(error) => Err(error),
        Ok(elements) => Ok(successes(card_outcomes(elements))),
    }
}

impl BsxTitleData {
    /// The selector of one card.
    pub fn div_bsx_selector() -> (r: RawKumaResult<scraper::Selector>)
        ensures
            compiled(r, r#"div[class="bsx"]"#@),
    {
        compile(r#"div[class="bsx"]"#)
    }

    /// The selector of the score block of a card.
    pub fn get_rating_selector() -> (r: RawKumaResult<scraper::Selector>)
        ensures
            compiled(r, r#"div[class="numscore"]"#@),
    {
        compile(r#"div[class="numscore"]"#)
    }

    /// The cards below an element, in document order.
    pub fn get_bsx_elements<'a>(data: &scraper::ElementRef<'a>) -> (r: RawKumaResult<
        Vec<scraper::ElementRef<'a>>,
    >)
        ensures
            elements_result(r) == lookup_all(*data, r#"div[class="bsx"]"#@),
    {
        select_all(data, r#"div[class="bsx"]"#)
    }

    /// The link of a card.
    pub fn get_title_element<'a>(data: &scraper::ElementRef<'a>) -> (r: RawKumaResult<
        scraper::ElementRef<'a>,
    >)
        ensures
            element_result(r) == lookup_first(*data, "a"@, "a"@),
    {
        select_first(data, "a", "a")
    }

    /// The image of a card.
    pub fn get_image_element<'a>(data: &scraper::ElementRef<'a>) -> (r: RawKumaResult<
        scraper::ElementRef<'a>,
    >)
        ensures
            element_result(r) == lookup_first(*data, "img"@, "img"@),
    {
        select_first(data, "img", "img")
    }

    /// The score block of a card.
    pub fn get_rating_element<'a>(data: &scraper::ElementRef<'a>) -> (r: RawKumaResult<
        scraper::ElementRef<'a>,
    >)
        ensures
            element_result(r) == lookup_first(
                *data,
                r#"div[class="numscore"]"#@,
                r#"div[class="numscore"]"#@,
            ),
    {
        select_first(data, r#"div[class="numscore"]"#, r#"div[class="numscore"]"#)
    }

    /// The title and the link of a card.
    pub fn get_title_data(data: &scraper::ElementRef) -> (r: RawKumaResult<TitleData>)
        ensures
            result_view(r) == title_data_of(*data),
    {
        let link = Self::get_title_element(data)?;
        let title = required_attr(&link, "title", "a")?;
        let href = required_attr(&link, "href", "a")?;
        let url = absolute_url(href.as_str())?;
        Ok(TitleData { title, url })
    }

    /// The cover image of a card.
    pub fn get_img_url(data: &scraper::ElementRef) -> (r: RawKumaResult<String>)
        ensures
            text_result(r) == img_url_of(*data),
    {
        let image = Self::get_image_element(data)?;
        let src = required_attr(&image, "src", "img")?;
        absolute_url(src.as_str())
    }

    /// The rating of a card.
    pub fn get_rating(data: &scraper::ElementRef) -> (r: RawKumaResult<Decimal>)
        ensures
            result_view(r) == rating_of(*data),
    {
        let score = Self::get_rating_element(data)?;
        let text = required_text(&score)?;
        parse_float(text.as_str())
    }
}

impl<'a> FromElementRef<'a> for BsxTitleData {
    open spec fn extracted(data: scraper::ElementRef<'a>) -> Result<BsxTitleDataView, ErrorView> {
        match title_data_of(data) {
            Err(error) => Err(error),
            Ok(link) => match rating_of(data) {
                Err(error) => Err(error),
                Ok(rating) => match img_url_of(data) {
                    Err(error) => Err(error),
                    Ok(image) => Ok(
                        BsxTitleDataView { title: link.title, url: link.url, image, rating },
                    ),
                },
            },
        }
    }

    fn from_element_ref(data: &scraper::ElementRef<'a>) -> (r: RawKumaResult<BsxTitleData>) {
        let title = Self::get_title_data(data)?;
        let rating = Self::get_rating(data)?;
        let image = Self::get_img_url(data)?;
        finished(
            BsxTitleDataBuilder::default().title(title.title).rating(rating).image(image).url(
                title.url,
            ).build(),
        )
    }
}

/// What reading each of `elements` as a card yields, in order.
pub open spec fn card_outcomes<'a>(elements: Seq<scraper::ElementRef<'a>>) -> Seq<
    Result<BsxTitleDataView, ErrorView>,
> {
    elements.map_values(|e: scraper::ElementRef<'a>| BsxTitleData::extracted(e))
}

/// Of `n` elements of which `k` do not read as a card, the tolerant policy
/// keeps `n - k`.
pub proof fn lemma_cards_tolerant_skip_length<'a>(elements: Seq<scraper::ElementRef<'a>>)
    ensures
        successes(card_outcomes(elements)).len() + failures(card_outcomes(elements))
            == elements.len(),
{
    lemma_tolerant_skip_length(card_outcomes(elements));
}

/// The tolerant policy keeps the cards in the order of their elements: of
/// two cards that it keeps, the one that comes out first was read from the
/// element that stood first.
pub proof fn lemma_cards_tolerant_skip_order<'a>(
    elements: Seq<scraper::ElementRef<'a>>,
    a: int,
    b: int,
)
    requires
        0 <= a < b < successes(card_outcomes(elements)).len(),
    ensures
        0 <= place_of(card_outcomes(elements), a) < place_of(card_outcomes(elements), b)
            < elements.len(),
        BsxTitleData::extracted(elements[place_of(card_outcomes(elements), a)]) == Ok::<
            BsxTitleDataView,
            ErrorView,
        >(successes(card_outcomes(elements))[a]),
        BsxTitleData::extracted(elements[place_of(card_outcomes(elements), b)]) == Ok::<
            BsxTitleDataView,
            ErrorView,
        >(successes(card_outcomes(elements))[b]),
{
    lemma_tolerant_skip_order(card_outcomes(elements), a, b);
}

} // verus!
