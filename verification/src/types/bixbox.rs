//! The metadata block of a series page.

use vstd::prelude::*;
use crate::dom::{
    compile, compiled, element_result, first_text, first_text_of, lookup_first, lookup_optional,
    required_attr, required_attr_of, required_text, required_text_of, select_first,
    select_optional, text_result,
};
use crate::error::{
    BuilderError, BuilderErrorView, ErrorView, finished, RawKumaResult, result_plain,
    result_view,
};
use crate::scalar::{
    absolute_url, absolute_url_of, Decimal, decimal_result_of, DecimalView, parse_float,
    parse_timestamp, parse_u16, parse_u32, Timestamp, timestamp_of, u16_of, u32_of,
};
use crate::types::{FromElementRef, option_text, views};
use crate::types::genre_tag::{MgenTag, MgenTagView, tags_of};

verus! {

/// What a series page says of the series itself.
#[derive(Clone, Debug)]
pub struct BixboxData {
    /// The name of the series.
    pub name: String,
    /// The cover image: an absolute URL.
    pub image: String,
    /// The lowest rating that can be given.
    pub worst_rating: u16,
    /// The highest rating that can be given.
    pub best_rating: u16,
    /// How many ratings were given.
    pub rating_count: u32,
    /// The rating of the series.
    pub rating_value: Decimal,
    /// The description, where the page gives one.
    pub description: Option<String>,
    /// The author of the series.
    pub author: String,
    /// When the series was first published.
    pub date_published: Timestamp,
    /// When the series was last modified.
    pub date_modified: Timestamp,
    /// The title that the cover image carries.
    pub title: String,
    /// The genre tags of the series, in document order.
    pub genres: Vec<MgenTag>,
}

/// Mathematical model of a [`BixboxData`].
pub struct BixboxDataView {
    pub name: Seq<char>,
    pub image: Seq<char>,
    pub worst_rating: u16,
    pub best_rating: u16,
    pub rating_count: u32,
    pub rating_value: DecimalView,
    pub description: Option<Seq<char>>,
    pub author: Seq<char>,
    pub date_published: Timestamp,
    pub date_modified: Timestamp,
    pub title: Seq<char>,
    pub genres: Seq<MgenTagView>,
}

impl View for BixboxData {
    type V = BixboxDataView;

    open spec fn view(&self) -> BixboxDataView {
        BixboxDataView {
            name: self.name@,
            image: self.image@,
            worst_rating: self.worst_rating,
            best_rating: self.best_rating,
            rating_count: self.rating_count,
            rating_value: self.rating_value@,
            description: option_text(self.description),
            author: self.author@,
            date_published: self.date_published,
            date_modified: self.date_modified,
            title: self.title@,
            genres: views(self.genres@),
        }
    }
}

/// Collects the fields of a [`BixboxData`] one by one; `build` yields the record
/// once every field has been set.
#[derive(Clone, Debug)]
pub struct BixboxDataBuilder {
    pub name: Option<String>,
    pub image: Option<String>,
    pub worst_rating: Option<u16>,
    pub best_rating: Option<u16>,
    pub rating_count: Option<u32>,
    pub rating_value: Option<Decimal>,
    pub description: Option<Option<String>>,
    pub author: Option<String>,
    pub date_published: Option<Timestamp>,
    pub date_modified: Option<Timestamp>,
    pub title: Option<String>,
    pub genres: Option<Vec<MgenTag>>,
}

impl Default for BixboxDataBuilder {
    fn default() -> (b: BixboxDataBuilder)
        ensures
            b.name is None,
            b.image is None,
            b.worst_rating is None,
            b.best_rating is None,
            b.rating_count is None,
            b.rating_value is None,
            b.description is None,
            b.author is None,
            b.date_published is None,
            b.date_modified is None,
            b.title is None,
            b.genres is None,
    {
        BixboxDataBuilder {
            name: None,
            image: None,
            worst_rating: None,
            best_rating: None,
            rating_count: None,
            rating_value: None,
            description: None,
            author: None,
            date_published: None,
            date_modified: None,
            title: None,
            genres: None,
        }
    }
}

impl BixboxDataBuilder {
    /// The name of the first field, in the order of the record, that has
    /// not been set.
    pub open spec fn missing(&self) -> Option<Seq<char>> {
        if self.name is None {
            Some("name"@)
        } else if self.image is None {
            Some("image"@)
        } else if self.worst_rating is None {
            Some("worst_rating"@)
        } else if self.best_rating is None {
            Some("best_rating"@)
        } else if self.rating_count is None {
            Some("rating_count"@)
        } else if self.rating_value is None {
            Some("rating_value"@)
        } else if self.description is None {
            Some("description"@)
        } else if self.author is None {
            Some("author"@)
        } else if self.date_published is None {
            Some("date_published"@)
        } else if self.date_modified is None {
            Some("date_modified"@)
        } else if self.title is None {
            Some("title"@)
        } else if self.genres is None {
            Some("genres"@)
        } else {
            None
        }
    }

    /// The record that the fields make up, once none is missing.
    pub open spec fn complete(&self) -> BixboxData {
        BixboxData {
            name: self.name->Some_0,
            image: self.image->Some_0,
            worst_rating: self.worst_rating->Some_0,
            best_rating: self.best_rating->Some_0,
            rating_count: self.rating_count->Some_0,
            rating_value: self.rating_value->Some_0,
            description: self.description->Some_0,
            author: self.author->Some_0,
            date_published: self.date_published->Some_0,
            date_modified: self.date_modified->Some_0,
            title: self.title->Some_0,
            genres: self.genres->Some_0,
        }
    }

    /// Sets `name`.
    pub fn name(self, value: String) -> (b: BixboxDataBuilder)
        ensures
            b == (BixboxDataBuilder {
                name: Some(value),
                image: self.image,
                worst_rating: self.worst_rating,
                best_rating: self.best_rating,
                rating_count: self.rating_count,
                rating_value: self.rating_value,
                description: self.description,
                author: self.author,
                date_published: self.date_published,
                date_modified: self.date_modified,
                title: self.title,
                genres: self.genres,
            }),
    {
        BixboxDataBuilder {
            name: Some(value),
            image: self.image,
            worst_rating: self.worst_rating,
            best_rating: self.best_rating,
            rating_count: self.rating_count,
            rating_value: self.rating_value,
            description: self.description,
            author: self.author,
            date_published: self.date_published,
            date_modified: self.date_modified,
            title: self.title,
            genres: self.genres,
        }
    }

    /// Sets `image`.
    pub fn image(self, value: String) -> (b: BixboxDataBuilder)
        ensures
            b == (BixboxDataBuilder {
                name: self.name,
                image: Some(value),
                worst_rating: self.worst_rating,
                best_rating: self.best_rating,
                rating_count: self.rating_count,
                rating_value: self.rating_value,
                description: self.description,
                author: self.author,
                date_published: self.date_published,
                date_modified: self.date_modified,
                title: self.title,
                genres: self.genres,
            }),
    {
        BixboxDataBuilder {
            name: self.name,
            image: Some(value),
            worst_rating: self.worst_rating,
            best_rating: self.best_rating,
            rating_count: self.rating_count,
            rating_value: self.rating_value,
            description: self.description,
            author: self.author,
            date_published: self.date_published,
            date_modified: self.date_modified,
            title: self.title,
            genres: self.genres,
        }
    }

    /// Sets `worst_rating`.
    pub fn worst_rating(self, value: u16) -> (b: BixboxDataBuilder)
        ensures
            b == (BixboxDataBuilder {
                name: self.name,
                image: self.image,
                worst_rating: Some(value),
                best_rating: self.best_rating,
                rating_count: self.rating_count,
                rating_value: self.rating_value,
                description: self.description,
                author: self.author,
                date_published: self.date_published,
                date_modified: self.date_modified,
                title: self.title,
                genres: self.genres,
            }),
    {
        BixboxDataBuilder {
            name: self.name,
            image: self.image,
            worst_rating: Some(value),
            best_rating: self.best_rating,
            rating_count: self.rating_count,
            rating_value: self.rating_value,
            description: self.description,
            author: self.author,
            date_published: self.date_published,
            date_modified: self.date_modified,
            title: self.title,
            genres: self.genres,
        }
    }

    /// Sets `best_rating`.
    pub fn best_rating(self, value: u16) -> (b: BixboxDataBuilder)
        ensures
            b == (BixboxDataBuilder {
                name: self.name,
                image: self.image,
                worst_rating: self.worst_rating,
                best_rating: Some(value),
                rating_count: self.rating_count,
                rating_value: self.rating_value,
                description: self.description,
                author: self.author,
                date_published: self.date_published,
                date_modified: self.date_modified,
                title: self.title,
                genres: self.genres,
            }),
    {
        BixboxDataBuilder {
            name: self.name,
            image: self.image,
            worst_rating: self.worst_rating,
            best_rating: Some(value),
            rating_count: self.rating_count,
            rating_value: self.rating_value,
            description: self.description,
            author: self.author,
            date_published: self.date_published,
            date_modified: self.date_modified,
            title: self.title,
            genres: self.genres,
        }
    }

    /// Sets `rating_count`.
    pub fn rating_count(self, value: u32) -> (b: BixboxDataBuilder)
        ensures
            b == (BixboxDataBuilder {
                name: self.name,
                image: self.image,
                worst_rating: self.worst_rating,
                best_rating: self.best_rating,
                rating_count: Some(value),
                rating_value: self.rating_value,
                description: self.description,
                author: self.author,
                date_published: self.date_published,
                date_modified: self.date_modified,
                title: self.title,
                genres: self.genres,
            }),
    {
        BixboxDataBuilder {
            name: self.name,
            image: self.image,
            worst_rating: self.worst_rating,
            best_rating: self.best_rating,
            rating_count: Some(value),
            rating_value: self.rating_value,
            description: self.description,
            author: self.author,
            date_published: self.date_published,
            date_modified: self.date_modified,
            title: self.title,
            genres: self.genres,
        }
    }

    /// Sets `rating_value`.
    pub fn rating_value(self, value: Decimal) -> (b: BixboxDataBuilder)
        ensures
            b == (BixboxDataBuilder {
                name: self.name,
                image: self.image,
                worst_rating: self.worst_rating,
                best_rating: self.best_rating,
                rating_count: self.rating_count,
                rating_value: Some(value),
                description: self.description,
                author: self.author,
                date_published: self.date_published,
                date_modified: self.date_modified,
                title: self.title,
                genres: self.genres,
            }),
    {
        BixboxDataBuilder {
            name: self.name,
            image: self.image,
            worst_rating: self.worst_rating,
            best_rating: self.best_rating,
            rating_count: self.rating_count,
            rating_value: Some(value),
            description: self.description,
            author: self.author,
            date_published: self.date_published,
            date_modified: self.date_modified,
            title: self.title,
            genres: self.genres,
        }
    }

    /// Sets `description`.
    pub fn description(self, value: Option<String>) -> (b: BixboxDataBuilder)
        ensures
            b == (BixboxDataBuilder {
                name: self.name,
                image: self.image,
                worst_rating: self.worst_rating,
                best_rating: self.best_rating,
                rating_count: self.rating_count,
                rating_value: self.rating_value,
                description: Some(value),
                author: self.author,
                date_published: self.date_published,
                date_modified: self.date_modified,
                title: self.title,
                genres: self.genres,
            }),
    {
        BixboxDataBuilder {
            name: self.name,
            image: self.image,
            worst_rating: self.worst_rating,
            best_rating: self.best_rating,
            rating_count: self.rating_count,
            rating_value: self.rating_value,
            description: Some(value),
            author: self.author,
            date_published: self.date_published,
            date_modified: self.date_modified,
            title: self.title,
            genres: self.genres,
        }
    }

    /// Sets `author`.
    pub fn author(self, value: String) -> (b: BixboxDataBuilder)
        ensures
            b == (BixboxDataBuilder {
                name: self.name,
                image: self.image,
                worst_rating: self.worst_rating,
                best_rating: self.best_rating,
                rating_count: self.rating_count,
                rating_value: self.rating_value,
                description: self.description,
                author: Some(value),
                date_published: self.date_published,
                date_modified: self.date_modified,
                title: self.title,
                genres: self.genres,
            }),
    {
        BixboxDataBuilder {
            name: self.name,
            image: self.image,
            worst_rating: self.worst_rating,
            best_rating: self.best_rating,
            rating_count: self.rating_count,
            rating_value: self.rating_value,
            description: self.description,
            author: Some(value),
            date_published: self.date_published,
            date_modified: self.date_modified,
            title: self.title,
            genres: self.genres,
        }
    }

    /// Sets `date_published`.
    pub fn date_published(self, value: Timestamp) -> (b: BixboxDataBuilder)
        ensures
            b == (BixboxDataBuilder {
                name: self.name,
                image: self.image,
                worst_rating: self.worst_rating,
                best_rating: self.best_rating,
                rating_count: self.rating_count,
                rating_value: self.rating_value,
                description: self.description,
                author: self.author,
                date_published: Some(value),
                date_modified: self.date_modified,
                title: self.title,
                genres: self.genres,
            }),
    {
        BixboxDataBuilder {
            name: self.name,
            image: self.image,
            worst_rating: self.worst_rating,
            best_rating: self.best_rating,
            rating_count: self.rating_count,
            rating_value: self.rating_value,
            description: self.description,
            author: self.author,
            date_published: Some(value),
            date_modified: self.date_modified,
            title: self.title,
            genres: self.genres,
        }
    }

    /// Sets `date_modified`.
    pub fn date_modified(self, value: Timestamp) -> (b: BixboxDataBuilder)
        ensures
            b == (BixboxDataBuilder {
                name: self.name,
                image: self.image,
                worst_rating: self.worst_rating,
                best_rating: self.best_rating,
                rating_count: self.rating_count,
                rating_value: self.rating_value,
                description: self.description,
                author: self.author,
                date_published: self.date_published,
                date_modified: Some(value),
                title: self.title,
                genres: self.genres,
            }),
    {
        BixboxDataBuilder {
            name: self.name,
            image: self.image,
            worst_rating: self.worst_rating,
            best_rating: self.best_rating,
            rating_count: self.rating_count,
            rating_value: self.rating_value,
            description: self.description,
            author: self.author,
            date_published: self.date_published,
            date_modified: Some(value),
            title: self.title,
            genres: self.genres,
        }
    }

    /// Sets `title`.
    pub fn title(self, value: String) -> (b: BixboxDataBuilder)
        ensures
            b == (BixboxDataBuilder {
                name: self.name,
                image: self.image,
                worst_rating: self.worst_rating,
                best_rating: self.best_rating,
                rating_count: self.rating_count,
                rating_value: self.rating_value,
                description: self.description,
                author: self.author,
                date_published: self.date_published,
                date_modified: self.date_modified,
                title: Some(value),
                genres: self.genres,
            }),
    {
        BixboxDataBuilder {
            name: self.name,
            image: self.image,
            worst_rating: self.worst_rating,
            best_rating: self.best_rating,
            rating_count: self.rating_count,
            rating_value: self.rating_value,
            description: self.description,
            author: self.author,
            date_published: self.date_published,
            date_modified: self.date_modified,
            title: Some(value),
            genres: self.genres,
        }
    }

    /// Sets `genres`.
    pub fn genres(self, value: Vec<MgenTag>) -> (b: BixboxDataBuilder)
        ensures
            b == (BixboxDataBuilder {
                name: self.name,
                image: self.image,
                worst_rating: self.worst_rating,
                best_rating: self.best_rating,
                rating_count: self.rating_count,
                rating_value: self.rating_value,
                description: self.description,
                author: self.author,
                date_published: self.date_published,
                date_modified: self.date_modified,
                title: self.title,
                genres: Some(value),
            }),
    {
        BixboxDataBuilder {
            name: self.name,
            image: self.image,
            worst_rating: self.worst_rating,
            best_rating: self.best_rating,
            rating_count: self.rating_count,
            rating_value: self.rating_value,
            description: self.description,
            author: self.author,
            date_published: self.date_published,
            date_modified: self.date_modified,
            title: self.title,
            genres: Some(value),
        }
    }

    /// Yields the record, or names the first field that was never set.
    pub fn build(self) -> (r: Result<BixboxData, BuilderError>)
        ensures
            match self.missing() {
                Some(field) => r is Err && r->Err_0@ == BuilderErrorView::UninitializedField(field),
                None => r == Ok::<BixboxData, BuilderError>(self.complete()),
            },
    {
        let name = match self.name {
            Some(value) => value,
            None => return Err(BuilderError::UninitializedField(String::from_str("name"))),
        };
        let image = match self.image {
            Some(value) => value,
            None => return Err(BuilderError::UninitializedField(String::from_str("image"))),
        };
        let worst_rating = match self.worst_rating {
            Some(value) => value,
            None => return Err(BuilderError::UninitializedField(String::from_str("worst_rating"))),
        };
        let best_rating = match self.best_rating {
            Some(value) => value,
            None => return Err(BuilderError::UninitializedField(String::from_str("best_rating"))),
        };
        let rating_count = match self.rating_count {
            Some(value) => value,
            None => return Err(BuilderError::UninitializedField(String::from_str("rating_count"))),
        };
        let rating_value = match self.rating_value {
            Some(value) => value,
            None => return Err(BuilderError::UninitializedField(String::from_str("rating_value"))),
        };
        let description = match self.description {
            Some(value) => value,
            None => return Err(BuilderError::UninitializedField(String::from_str("description"))),
        };
        let author = match self.author {
            Some(value) => value,
            None => return Err(BuilderError::UninitializedField(String::from_str("author"))),
        };
        let date_published = match self.date_published {
            Some(value) => value,
            None => return Err(BuilderError::UninitializedField(String::from_str("date_published"))),
        };
        let date_modified = match self.date_modified {
            Some(value) => value,
            None => return Err(BuilderError::UninitializedField(String::from_str("date_modified"))),
        };
        let title = match self.title {
            Some(value) => value,
            None => return Err(BuilderError::UninitializedField(String::from_str("title"))),
        };
        let genres = match self.genres {
            Some(value) => value,
            None => return Err(BuilderError::UninitializedField(String::from_str("genres"))),
        };
        Ok(
            BixboxData {
                name,
                image,
                worst_rating,
                best_rating,
                rating_count,
                rating_value,
                description,
                author,
                date_published,
                date_modified,
                title,
                genres,
            },
        )
    }
}

/// The `content` attribute of the first match of `pattern`.
pub open spec fn content_of(data: scraper::ElementRef, pattern: Seq<char>) -> Result<
    Seq<char>,
    ErrorView,
> {
    match lookup_first(data, pattern, pattern) {
        Err(error) => Err(error),
        Ok(element) => required_attr_of(element, "content"@, pattern),
    }
}

/// The `datetime` attribute of the first match of `pattern`, read as a
/// timestamp.
pub open spec fn datetime_of(data: scraper::ElementRef, pattern: Seq<char>) -> Result<
    Timestamp,
    ErrorView,
> {
    match lookup_first(data, pattern, pattern) {
        Err(error) => Err(error),
        Ok(element) => match required_attr_of(element, "datetime"@, pattern) {
            Err(error) => Err(error),
            Ok(raw) => timestamp_of(raw),
        },
    }
}

/// The cover image and the title of a series: the `src` of the cover, made
/// absolute, and its `title`.
pub open spec fn image_data_of(data: scraper::ElementRef) -> Result<
    (Seq<char>, Seq<char>),
    ErrorView,
> {
    match lookup_first(data, r#"img[itemprop="image"]"#@, r#"img[itemprop="image"]"#@) {
        Err(error) => Err(error),
        Ok(image) => match required_attr_of(image, "src"@, r#"img[itemprop="image"]"#@) {
            Err(error) => Err(error),
            Ok(src) => match absolute_url_of(src) {
                Err(error) => Err(error),
                Ok(url) => match required_attr_of(image, "title"@, r#"img[itemprop="image"]"#@) {
                    Err(error) => Err(error),
                    Ok(title) => Ok((url, title)),
                },
            },
        },
    }
}

/// The name of a series: the first text of its heading.
pub open spec fn name_data_of(data: scraper::ElementRef) -> Result<Seq<char>, ErrorView> {
    match lookup_first(data, r#"h1[itemprop="name"]"#@, r#"h1[itemprop="name"]"#@) {
        Err(error) => Err(error),
        Ok(heading) => required_text_of(heading),
    }
}

/// The lowest rating that can be given.
pub open spec fn worst_rating_of(data: scraper::ElementRef) -> Result<u16, ErrorView> {
    match content_of(data, r#"meta[itemprop="worstRating"]"#@) {
        Err(error) => Err(error),
        Ok(raw) => u16_of(raw),
    }
}

/// The highest rating that can be given.
pub open spec fn best_rating_of(data: scraper::ElementRef) -> Result<u16, ErrorView> {
    match content_of(data, r#"meta[itemprop="bestRating"]"#@) {
        Err(error) => Err(error),
        Ok(raw) => u16_of(raw),
    }
}

/// How many ratings were given.
pub open spec fn rating_count_of(data: scraper::ElementRef) -> Result<u32, ErrorView> {
    match content_of(data, r#"meta[itemprop="ratingCount"]"#@) {
        Err(error) => Err(error),
        Ok(raw) => u32_of(raw),
    }
}

/// The rating of the series.
pub open spec fn rating_value_of(data: scraper::ElementRef) -> Result<DecimalView, ErrorView> {
    match content_of(data, r#"div[itemprop="ratingValue"]"#@) {
        Err(error) => Err(error),
        Ok(raw) => decimal_result_of(raw),
    }
}

/// The element that names the author: the name inside the author block.
pub open spec fn author_element_of(data: scraper::ElementRef) -> Result<
    scraper::ElementRef,
    ErrorView,
> {
    match lookup_first(data, r#"span[itemprop="author"]"#@, r#"span[itemprop="author"]"#@) {
        Err(error) => Err(error),
        Ok(block) => lookup_first(block, r#"i[itemprop="name"]"#@, r#"i[itemprop="name"]"#@),
    }
}

/// The author of the series.
pub open spec fn author_data_of(data: scraper::ElementRef) -> Result<Seq<char>, ErrorView> {
    match author_element_of(data) {
        Err(error) => Err(error),
        Ok(element) => required_text_of(element),
    }
}

/// The description of the series: the first text of the description block.
/// The description is optional: a page without the block, or with a block
/// that holds no text, has none.
pub open spec fn description_data_of(data: scraper::ElementRef) -> Result<
    Option<Seq<char>>,
    ErrorView,
> {
    match lookup_optional(data, r#"div[itemprop="description"]"#@) {
        Err(error) => Err(error),
        Ok(None) => Ok(None),
        Ok(Some(block)) => Ok(first_text_of(block)),
    }
}

impl BixboxData {
    /// The selector of the metadata block of a series page.
    pub fn get_bix_box_anime_full_selector() -> (r: RawKumaResult<scraper::Selector>)
        ensures
            compiled(r, "div.bixbox.animefull"@),
    {
        compile("div.bixbox.animefull")
    }

    /// The selector of the cover image.
    pub fn get_image_selector() -> (r: RawKumaResult<scraper::Selector>)
        ensures
            compiled(r, r#"img[itemprop="image"]"#@),
    {
        compile(r#"img[itemprop="image"]"#)
    }

    /// The selector of the heading that names the series.
    pub fn get_name_selector() -> (r: RawKumaResult<scraper::Selector>)
        ensures
            compiled(r, r#"h1[itemprop="name"]"#@),
    {
        compile(r#"h1[itemprop="name"]"#)
    }

    /// The selector of the lowest rating.
    pub fn get_worst_rating_selector() -> (r: RawKumaResult<scraper::Selector>)
        ensures
            compiled(r, r#"meta[itemprop="worstRating"]"#@),
    {
        compile(r#"meta[itemprop="worstRating"]"#)
    }

    /// The selector of the highest rating.
    pub fn get_best_rating_selector() -> (r: RawKumaResult<scraper::Selector>)
        ensures
            compiled(r, r#"meta[itemprop="bestRating"]"#@),
    {
        compile(r#"meta[itemprop="bestRating"]"#)
    }

    /// The selector of the number of ratings.
    pub fn get_rating_count_selector() -> (r: RawKumaResult<scraper::Selector>)
        ensures
            compiled(r, r#"meta[itemprop="ratingCount"]"#@),
    {
        compile(r#"meta[itemprop="ratingCount"]"#)
    }

    /// The selector of the rating.
    pub fn get_rating_value_selector() -> (r: RawKumaResult<scraper::Selector>)
        ensures
            compiled(r, r#"div[itemprop="ratingValue"]"#@),
    {
        compile(r#"div[itemprop="ratingValue"]"#)
    }

    /// The selector of the description.
    pub fn get_description_selector() -> (r: RawKumaResult<scraper::Selector>)
        ensures
            compiled(r, r#"div[itemprop="description"]"#@),
    {
        compile(r#"div[itemprop="description"]"#)
    }

    /// The selector of the date of the last change.
    pub fn get_date_modified_selector() -> (r: RawKumaResult<scraper::Selector>)
        ensures
            compiled(r, r#"time[itemprop="dateModified"]"#@),
    {
        compile(r#"time[itemprop="dateModified"]"#)
    }

    /// The selector of the date of publication.
    pub fn get_date_published_selector() -> (r: RawKumaResult<scraper::Selector>)
        ensures
            compiled(r, r#"time[itemprop="datePublished"]"#@),
    {
        compile(r#"time[itemprop="datePublished"]"#)
    }

    /// The selector of the author block.
    pub fn get_author_selector() -> (r: RawKumaResult<scraper::Selector>)
        ensures
            compiled(r, r#"span[itemprop="author"]"#@),
    {
        compile(r#"span[itemprop="author"]"#)
    }

    /// The selector of the name inside the author block.
    pub fn get_author_i_selector_selector() -> (r: RawKumaResult<scraper::Selector>)
        ensures
            compiled(r, r#"i[itemprop="name"]"#@),
    {
        compile(r#"i[itemprop="name"]"#)
    }

    /// The element of the cover image.
    pub fn get_image_element<'a>(data: &scraper::ElementRef<'a>) -> (r: RawKumaResult<
        scraper::ElementRef<'a>,
    >)
        ensures
            element_result(r) == lookup_first(
                *data,
                r#"img[itemprop="image"]"#@,
                r#"img[itemprop="image"]"#@,
            ),
    {
        select_first(data, r#"img[itemprop="image"]"#, r#"img[itemprop="image"]"#)
    }

    /// The element of the heading that names the series.
    pub fn get_name_element<'a>(data: &scraper::ElementRef<'a>) -> (r: RawKumaResult<
        scraper::ElementRef<'a>,
    >)
        ensures
            element_result(r) == lookup_first(
                *data,
                r#"h1[itemprop="name"]"#@,
                r#"h1[itemprop="name"]"#@,
            ),
    {
        select_first(data, r#"h1[itemprop="name"]"#, r#"h1[itemprop="name"]"#)
    }

    /// The element of the lowest rating.
    pub fn get_worst_rating_element<'a>(data: &scraper::ElementRef<'a>) -> (r: RawKumaResult<
        scraper::ElementRef<'a>,
    >)
        ensures
            element_result(r) == lookup_first(
                *data,
                r#"meta[itemprop="worstRating"]"#@,
                r#"meta[itemprop="worstRating"]"#@,
            ),
    {
        select_first(data, r#"meta[itemprop="worstRating"]"#, r#"meta[itemprop="worstRating"]"#)
    }

    /// The element of the highest rating.
    pub fn get_best_rating_element<'a>(data: &scraper::ElementRef<'a>) -> (r: RawKumaResult<
        scraper::ElementRef<'a>,
    >)
        ensures
            element_result(r) == lookup_first(
                *data,
                r#"meta[itemprop="bestRating"]"#@,
                r#"meta[itemprop="bestRating"]"#@,
            ),
    {
        select_first(data, r#"meta[itemprop="bestRating"]"#, r#"meta[itemprop="bestRating"]"#)
    }

    /// The element of the number of ratings.
    pub fn get_rating_count_element<'a>(data: &scraper::ElementRef<'a>) -> (r: RawKumaResult<
        scraper::ElementRef<'a>,
    >)
        ensures
            element_result(r) == lookup_first(
                *data,
                r#"meta[itemprop="ratingCount"]"#@,
                r#"meta[itemprop="ratingCount"]"#@,
            ),
    {
        select_first(data, r#"meta[itemprop="ratingCount"]"#, r#"meta[itemprop="ratingCount"]"#)
    }

    /// The element of the rating.
    pub fn get_rating_value_element<'a>(data: &scraper::ElementRef<'a>) -> (r: RawKumaResult<
        scraper::ElementRef<'a>,
    >)
        ensures
            element_result(r) == lookup_first(
                *data,
                r#"div[itemprop="ratingValue"]"#@,
                r#"div[itemprop="ratingValue"]"#@,
            ),
    {
        select_first(data, r#"div[itemprop="ratingValue"]"#, r#"div[itemprop="ratingValue"]"#)
    }

    /// The element of the description.
    pub fn get_description_element<'a>(data: &scraper::ElementRef<'a>) -> (r: RawKumaResult<
        scraper::ElementRef<'a>,
    >)
        ensures
            element_result(r) == lookup_first(
                *data,
                r#"div[itemprop="description"]"#@,
                r#"div[itemprop="description"]"#@,
            ),
    {
        select_first(data, r#"div[itemprop="description"]"#, r#"div[itemprop="description"]"#)
    }

    /// The element of the date of the last change.
    pub fn get_date_modified_element<'a>(data: &scraper::ElementRef<'a>) -> (r: RawKumaResult<
        scraper::ElementRef<'a>,
    >)
        ensures
            element_result(r) == lookup_first(
                *data,
                r#"time[itemprop="dateModified"]"#@,
                r#"time[itemprop="dateModified"]"#@,
            ),
    {
        select_first(data, r#"time[itemprop="dateModified"]"#, r#"time[itemprop="dateModified"]"#)
    }

    /// The element of the date of publication.
    pub fn get_date_published_element<'a>(data: &scraper::ElementRef<'a>) -> (r: RawKumaResult<
        scraper::ElementRef<'a>,
    >)
        ensures
            element_result(r) == lookup_first(
                *data,
                r#"time[itemprop="datePublished"]"#@,
                r#"time[itemprop="datePublished"]"#@,
            ),
    {
        select_first(data, r#"time[itemprop="datePublished"]"#, r#"time[itemprop="datePublished"]"#)
    }

    /// The element that names the author.
    pub fn get_author_element<'a>(data: &scraper::ElementRef<'a>) -> (r: RawKumaResult<
        scraper::ElementRef<'a>,
    >)
        ensures
            element_result(r) == author_element_of(*data),
    {
        let block = select_first(data, r#"span[itemprop="author"]"#, r#"span[itemprop="author"]"#)?;
        select_first(&block, r#"i[itemprop="name"]"#, r#"i[itemprop="name"]"#)
    }

    /// The cover image and the title of the series.
    pub fn get_image_element_data(data: &scraper::ElementRef) -> (r: RawKumaResult<(String, String)>)
        ensures
            match r {
                Ok(pair) => image_data_of(*data) == Ok::<(Seq<char>, Seq<char>), ErrorView>(
                    (pair.0@, pair.1@),
                ),
                Err(error) => image_data_of(*data) == Err::<(Seq<char>, Seq<char>), ErrorView>(
                    error@,
                ),
            },
    {
        let element = Self::get_image_element(data)?;
        let src = required_attr(&element, "src", r#"img[itemprop="image"]"#)?;
        let url = absolute_url(src.as_str())?;
        let title = required_attr(&element, "title", r#"img[itemprop="image"]"#)?;
        Ok((url, title))
    }

    /// The name of the series.
    pub fn get_name_element_data(data: &scraper::ElementRef) -> (r: RawKumaResult<String>)
        ensures
            text_result(r) == name_data_of(*data),
    {
        let element = Self::get_name_element(data)?;
        required_text(&element)
    }

    /// The lowest rating that can be given.
    pub fn get_worst_rating_element_data(data: &scraper::ElementRef) -> (r: RawKumaResult<u16>)
        ensures
            result_plain(r) == worst_rating_of(*data),
    {
        let element = Self::get_worst_rating_element(data)?;
        let content = required_attr(&element, "content", r#"meta[itemprop="worstRating"]"#)?;
        parse_u16(content.as_str())
    }

    /// The highest rating that can be given.
    pub fn get_best_rating_element_data(data: &scraper::ElementRef) -> (r: RawKumaResult<u16>)
        ensures
            result_plain(r) == best_rating_of(*data),
    {
        let element = Self::get_best_rating_element(data)?;
        let content = required_attr(&element, "content", r#"meta[itemprop="bestRating"]"#)?;
        parse_u16(content.as_str())
    }

    /// How many ratings were given.
    pub fn get_rating_count_element_data(data: &scraper::ElementRef) -> (r: RawKumaResult<u32>)
        ensures
            result_plain(r) == rating_count_of(*data),
    {
        let element = Self::get_rating_count_element(data)?;
        let content = required_attr(&element, "content", r#"meta[itemprop="ratingCount"]"#)?;
        parse_u32(content.as_str())
    }

    /// The rating of the series.
    pub fn get_rating_value_element_data(data: &scraper::ElementRef) -> (r: RawKumaResult<Decimal>)
        ensures
            result_view(r) == rating_value_of(*data),
    {
        let element = Self::get_rating_value_element(data)?;
        let content = required_attr(&element, "content", r#"div[itemprop="ratingValue"]"#)?;
        parse_float(content.as_str())
    }

    /// The author of the series.
    pub fn get_author_element_data(data: &scraper::ElementRef) -> (r: RawKumaResult<String>)
        ensures
            text_result(r) == author_data_of(*data),
    {
        let element = Self::get_author_element(data)?;
        required_text(&element)
    }

    /// The description of the series, if the page gives one.
    pub fn get_description_element_data(data: &scraper::ElementRef) -> (r: RawKumaResult<
        Option<String>,
    >)
        ensures
            match r {
                Ok(text) => description_data_of(*data) == Ok::<Option<Seq<char>>, ErrorView>(
                    option_text(text),
                ),
                Err(error) => description_data_of(*data) == Err::<Option<Seq<char>>, ErrorView>(
                    error@,
                ),
            },
    {
        match select_optional(data, r#"div[itemprop="description"]"#)? {
            Some(block) => Ok(first_text(&block)),
            None => Ok(None),
        }
    }

    /// When the series was last modified.
    pub fn get_date_modified_element_data(data: &scraper::ElementRef) -> (r: RawKumaResult<
        Timestamp,
    >)
        ensures
            result_plain(r) == datetime_of(*data, r#"time[itemprop="dateModified"]"#@),
    {
        let element = Self::get_date_modified_element(data)?;
        let raw = required_attr(&element, "datetime", r#"time[itemprop="dateModified"]"#)?;
        parse_timestamp(raw.as_str())
    }

    /// When the series was first published.
    pub fn get_date_published_element_data(data: &scraper::ElementRef) -> (r: RawKumaResult<
        Timestamp,
    >)
        ensures
            result_plain(r) == datetime_of(*data, r#"time[itemprop="datePublished"]"#@),
    {
        let element = Self::get_date_published_element(data)?;
        let raw = required_attr(&element, "datetime", r#"time[itemprop="datePublished"]"#)?;
        parse_timestamp(raw.as_str())
    }
}

impl<'a> FromElementRef<'a> for BixboxData {
    open spec fn extracted(data: scraper::ElementRef<'a>) -> Result<BixboxDataView, ErrorView> {
        match image_data_of(data) {
            Err(error) => Err(error),
            Ok(cover) => match name_data_of(data) {
                Err(error) => Err(error),
                Ok(name) => match worst_rating_of(data) {
                    Err(error) => Err(error),
                    Ok(worst_rating) => match best_rating_of(data) {
                        Err(error) => Err(error),
                        Ok(best_rating) => match rating_count_of(data) {
                            Err(error) => Err(error),
                            Ok(rating_count) => match rating_value_of(data) {
                                Err(error) => Err(error),
                                Ok(rating_value) => match description_data_of(data) {
                                    Err(error) => Err(error),
                                    Ok(description) => match author_data_of(data) {
                                        Err(error) => Err(error),
                                        Ok(author) => match datetime_of(
                                            data,
                                            r#"time[itemprop="dateModified"]"#@,
                                        ) {
                                            Err(error) => Err(error),
                                            Ok(date_modified) => match datetime_of(
                                                data,
                                                r#"time[itemprop="datePublished"]"#@,
                                            ) {
                                                Err(error) => Err(error),
                                                Ok(date_published) => match tags_of(data) {
                                                    Err(error) => Err(error),
                                                    Ok(genres) => Ok(
                                                        BixboxDataView {
                                                            name,
                                                            image: cover.0,
                                                            worst_rating,
                                                            best_rating,
                                                            rating_count,
                                                            rating_value,
                                                            description,
                                                            author,
                                                            date_published,
                                                            date_modified,
                                                            title: cover.1,
                                                            genres,
                                                        },
                                                    ),
                                                },
                                            },
                                        },
                                    },
                                },
                            },
                        },
                    },
                },
            },
        }
    }

    fn from_element_ref(data: &scraper::ElementRef<'a>) -> (r: RawKumaResult<BixboxData>) {
        let cover = Self::get_image_element_data(data)?;
        let name = Self::get_name_element_data(data)?;
        let worst_rating = Self::get_worst_rating_element_data(data)?;
        let best_rating = Self::get_best_rating_element_data(data)?;
        let rating_count = Self::get_rating_count_element_data(data)?;
        let rating_value = Self::get_rating_value_element_data(data)?;
        let description = Self::get_description_element_data(data)?;
        let author = Self::get_author_element_data(data)?;
        let date_modified = Self::get_date_modified_element_data(data)?;
        let date_published = Self::get_date_published_element_data(data)?;
        let genres = MgenTag::get_tags_elements_data(data)?;
        finished(
            BixboxDataBuilder::default().image(cover.0).title(cover.1).name(name).worst_rating(
                worst_rating,
            ).best_rating(best_rating).rating_count(rating_count).rating_value(
                rating_value,
            ).description(description).author(author).date_modified(date_modified).date_published(
                date_published,
            ).genres(genres).build(),
        )
    }
}

} // verus!
