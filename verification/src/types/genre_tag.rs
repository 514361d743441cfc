//! A genre tag attached to a series.

use vstd::prelude::*;
use crate::dom::{
    compile, compile_failure_of, compiled, element_result, elements_result, lookup_first,
    matches_of, required_attr, required_attr_of, required_text, required_text_of, select_first,
    select_within,
};
use crate::error::{BuilderError, BuilderErrorView, ErrorView, RawKumaResult, finished};
use crate::scalar::{absolute_url, absolute_url_of};
use crate::types::{FromElementRef, list_result, successes};

verus! {

/// One labelled classification link of a series.
#[derive(Clone, Debug)]
pub struct MgenTag {
    /// Where the tag leads: an absolute URL.
    pub url: String,
    /// The label of the tag.
    pub name: String,
}

/// Mathematical model of a [`MgenTag`].
pub struct MgenTagView {
    pub url: Seq<char>,
    pub name: Seq<char>,
}

impl View for MgenTag {
    type V = MgenTagView;

    open spec fn view(&self) -> MgenTagView {
        MgenTagView {
            url: self.url@,
            name: self.name@,
        }
    }
}

/// Collects the fields of a [`MgenTag`] one by one; `build` yields the record
/// once every field has been set.
#[derive(Clone, Debug)]
pub struct MgenTagBuilder {
    pub url: Option<String>,
    pub name: Option<String>,
}

impl Default for MgenTagBuilder {
    fn default() -> (b: MgenTagBuilder)
        ensures
            b.url is None,
            b.name is None,
    {
        MgenTagBuilder {
            url: None,
            name: None,
        }
    }
}

impl MgenTagBuilder {
    /// The name of the first field, in the order of the record, that has
    /// not been set.
    pub open spec fn missing(&self) -> Option<Seq<char>> {
        if self.url is None {
            Some("url"@)
        } else if self.name is None {
            Some("name"@)
        } else {
            None
        }
    }

    /// The record that the fields make up, once none is missing.
    pub open spec fn complete(&self) -> MgenTag {
        MgenTag {
            url: self.url->Some_0,
            name: self.name->Some_0,
        }
    }

    /// Sets `url`.
    pub fn url(self, value: String) -> (b: MgenTagBuilder)
        ensures
            b == (MgenTagBuilder {
                url: Some(value),
                name: self.name,
            }),
    {
        MgenTagBuilder {
            url: Some(value),
            name: self.name,
        }
    }

    /// Sets `name`.
    pub fn name(self, value: String) -> (b: MgenTagBuilder)
        ensures
            b == (MgenTagBuilder {
                url: self.url,
                name: Some(value),
            }),
    {
        MgenTagBuilder {
            url: self.url,
            name: Some(value),
        }
    }

    /// Yields the record, or names the first field that was never set.
    pub fn build(self) -> (r: Result<MgenTag, BuilderError>)
        ensures
            match self.missing() {
                Some(field) => r is Err && r->Err_0@ == BuilderErrorView::UninitializedField(field),
                None => r == Ok::<MgenTag, BuilderError>(self.complete()),
            },
    {
        let url = match self.url {
            Some(value) => value,
            None => return Err(BuilderError::UninitializedField(String::from_str("url"))),
        };
        let name = match self.name {
            Some(value) => value,
            None => return Err(BuilderError::UninitializedField(String::from_str("name"))),
        };
        Ok(MgenTag { url, name })
    }
}

/// The genre tags below an element: each link of the tag block that reads as
/// a tag, in document order.
pub open spec fn tags_of<'a>(data: scraper::ElementRef<'a>) -> Result<Seq<MgenTagView>, ErrorView> {
    match compile_failure_of(r#"a[rel="tag"]"#@) {
        Some(error) => Err(error),
        None => match lookup_first(data, ".mgen"@, ".mgen"@) {
            Err(error) => Err(error),
            Ok(block) => Ok(
                successes(
                    matches_of(block, r#"a[rel="tag"]"#@).map_values(
                        |e: scraper::ElementRef<'a>| MgenTag::extracted(e),
                    ),
                ),
            ),
        },
    }
}

impl MgenTag {
    /// The selector of the block that holds the tags.
    pub fn get_mgen_selector() -> (r: RawKumaResult<scraper::Selector>)
        ensures
            compiled(r, ".mgen"@),
    {
        compile(".mgen")
    }

    /// The selector of one tag link.
    pub fn get_tag_selector() -> (r: RawKumaResult<scraper::Selector>)
        ensures
            compiled(r, r#"a[rel="tag"]"#@),
    {
        compile(r#"a[rel="tag"]"#)
    }

    /// The block that holds the tags.
    pub fn get_mgen_element<'a>(data: &scraper::ElementRef<'a>) -> (r: RawKumaResult<
        scraper::ElementRef<'a>,
    >)
        ensures
            element_result(r) == lookup_first(*data, ".mgen"@, ".mgen"@),
    {
        select_first(data, ".mgen", ".mgen")
    }

    /// The tag links of the block, in document order.
    pub fn get_tag_elements<'a>(data: &scraper::ElementRef<'a>) -> (r: RawKumaResult<
        Vec<scraper::ElementRef<'a>>,
    >)
        ensures
            elements_result(r) == match compile_failure_of(r#"a[rel="tag"]"#@) {
                Some(error) => Err(error),
                None => match lookup_first(*data, ".mgen"@, ".mgen"@) {
                    Err(error) => Err(error),
                    Ok(block) => Ok(matches_of(block, r#"a[rel="tag"]"#@)),
                },
            },
    {
        let selector = Self::get_tag_selector()?;
        let block = Self::get_mgen_element(data)?;
        Ok(select_within(&block, &selector))
    }

    /// The tags of the block. A link that does not read as a tag is skipped.
    pub fn get_tags_elements_data<'a>(data: &scraper::ElementRef<'a>) -> (r: RawKumaResult<Vec<MgenTag>>)
        ensures
            list_result(r) == tags_of(*data),
    {
        let elements = Self::get_tag_elements(data)?;
        Self::from_vec_element(&elements)
    }
}

impl<'a> FromElementRef<'a> for MgenTag {
    open spec fn extracted(data: scraper::ElementRef<'a>) -> Result<MgenTagView, ErrorView> {
        match required_attr_of(data, "href"@, "a"@) {
            Err(error) => Err(error),
            Ok(href) => match absolute_url_of(href) {
                Err(error) => Err(error),
                Ok(url) => match required_text_of(data) {
                    Err(error) => Err(error),
                    Ok(name) => Ok(MgenTagView { url, name }),
                },
            },
        }
    }

    fn from_element_ref(data: &scraper::ElementRef<'a>) -> (r: RawKumaResult<MgenTag>) {
        let href = required_attr(data, "href", "a")?;
        let url = absolute_url(href.as_str())?;
        let name = required_text(data)?;
        finished(MgenTagBuilder::default().name(name).url(url).build())
    }
}

} // verus!
