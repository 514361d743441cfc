//! The parser of the search result page.

use vstd::prelude::*;
use crate::error::{ErrorView, RawKumaResult};
use crate::parser::{HtmlParser, content_of, get_content_element};
use crate::types::bsx::{BsxTitleData, cards_of};
use crate::types::{FromElementRef, list_result};

verus! {

/// The accessors of a search result page.
#[derive(Clone, Copy)]
pub struct RawKumaSearchParser<'a> {
    /// The content region of the page.
    pub content: scraper::ElementRef<'a>,
}

impl<'a> View for RawKumaSearchParser<'a> {
    type V = RawKumaSearchParser<'a>;

    open spec fn view(&self) -> RawKumaSearchParser<'a> {
        *self
    }
}

impl<'a> HtmlParser<'a> for RawKumaSearchParser<'a> {
    open spec fn located(html: &'a scraper::Html) -> Result<Self, ErrorView> {
        match content_of(html) {
            Err(error) => Err(error),
            Ok(content) => Ok(RawKumaSearchParser { content }),
        }
    }

    fn init(html: &'a scraper::Html) -> (r: RawKumaResult<Self>) {
        let content = get_content_element(html)?;
        Ok(RawKumaSearchParser { content })
    }
}

impl<'a> RawKumaSearchParser<'a> {
    /// The series that the search found, in document order. A card that
    /// does not read as a series is skipped.
    pub fn get_bsx_results(&self) -> (r: RawKumaResult<Vec<BsxTitleData>>)
        ensures
            list_result(r) == cards_of(self.content),
    {
        let elements = BsxTitleData::get_bsx_elements(&self.content)?;
        BsxTitleData::from_vec_element(&elements)
    }
}

} // verus!
