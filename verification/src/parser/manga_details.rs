//! The parser of the page of one series.

use vstd::prelude::*;
use crate::dom::{lookup_first, select_first};
use crate::error::{ErrorView, RawKumaResult, result_view};
use crate::parser::{HtmlParser, content_of, get_content_element};
use crate::types::bixbox::{BixboxData, BixboxDataView};
use crate::types::bsx::{BsxTitleData, cards_of};
use crate::types::chapterlist::{ChapterList, ChapterListView};
use crate::types::{FromElementRef, list_result};

verus! {

/// The accessors of a series page.
#[derive(Clone, Copy)]
pub struct RawKumaMangaDetailParser<'a> {
    /// The content region of the page.
    pub content: scraper::ElementRef<'a>,
}

impl<'a> View for RawKumaMangaDetailParser<'a> {
    type V = RawKumaMangaDetailParser<'a>;

    open spec fn view(&self) -> RawKumaMangaDetailParser<'a> {
        *self
    }
}

impl<'a> HtmlParser<'a> for RawKumaMangaDetailParser<'a> {
    open spec fn located(html: &'a scraper::Html) -> Result<Self, ErrorView> {
        match content_of(html) {
            Err(error) => Err(error),
            Ok(content) => Ok(RawKumaMangaDetailParser { content }),
        }
    }

    fn init(html: &'a scraper::Html) -> (r: RawKumaResult<Self>) {
        let content = get_content_element(html)?;
        Ok(RawKumaMangaDetailParser { content })
    }
}

impl<'a> RawKumaMangaDetailParser<'a> {
    /// What the page says of the series: the metadata block, read. A page
    /// without the block has no series to speak of.
    pub open spec fn bixbox_data(self) -> Result<BixboxDataView, ErrorView> {
        match lookup_first(self.content, "div.bixbox.animefull"@, "div.bixbox.animefull"@) {
            Err(error) => Err(error),
            Ok(block) => BixboxData::extracted(block),
        }
    }

    /// The chapters of the series: the chapter-list container, read.
    pub open spec fn chapter_list(self) -> Result<ChapterListView, ErrorView> {
        match lookup_first(self.content, "div#chapterlist"@, "div#chapterlist"@) {
            Err(error) => Err(error),
            Ok(container) => ChapterList::extracted(container),
        }
    }

    /// Reads the metadata block of the page.
    pub fn get_bixbox_data(&self) -> (r: RawKumaResult<BixboxData>)
        ensures
            result_view(r) == self.bixbox_data(),
    {
        let block = select_first(&self.content, "div.bixbox.animefull", "div.bixbox.animefull")?;
        BixboxData::from_element_ref(&block)
    }

    /// Reads the chapter list of the page. An item that does not read as a
    /// chapter is skipped.
    pub fn get_chapter_list(&self) -> (r: RawKumaResult<ChapterList>)
        ensures
            result_view(r) == self.chapter_list(),
    {
        let container = ChapterList::get_chapter_list_element(&self.content)?;
        ChapterList::from_element_ref(&container)
    }

    /// The series related to this one, in document order. A card that does
    /// not read as a series is skipped.
    pub fn get_related_series(&self) -> (r: RawKumaResult<Vec<BsxTitleData>>)
        ensures
            list_result(r) == cards_of(self.content),
    {
        let elements = BsxTitleData::get_bsx_elements(&self.content)?;
        BsxTitleData::from_vec_element(&elements)
    }
}

} // verus!
