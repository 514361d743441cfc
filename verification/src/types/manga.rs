//! The page of one series.

use vstd::prelude::*;
use crate::error::{BuilderError, BuilderErrorView, ErrorView, RawKumaResult, finished};
use crate::types::{FromHtmlParser, views};
use crate::types::bsx::{BsxTitleData, BsxTitleDataView, cards_of};
use crate::dom::lookup_all;
use crate::parser::manga_details::RawKumaMangaDetailParser;
use crate::types::bixbox::{BixboxData, BixboxDataView};
use crate::types::chapterlist::{ChapterList, ChapterListView};

verus! {

/// A series with its chapters and the series related to it.
#[derive(Clone, Debug)]
pub struct RawKumaMangaDetailData {
    /// What the page says of the series itself.
    pub data: BixboxData,
    /// The chapters, in document order.
    pub chapterlist: ChapterList,
    /// The related series, in document order.
    pub related_series: Vec<BsxTitleData>,
}

/// Mathematical model of a [`RawKumaMangaDetailData`].
pub struct RawKumaMangaDetailDataView {
    pub data: BixboxDataView,
    pub chapterlist: ChapterListView,
    pub related_series: Seq<BsxTitleDataView>,
}

impl View for RawKumaMangaDetailData {
    type V = RawKumaMangaDetailDataView;

    open spec fn view(&self) -> RawKumaMangaDetailDataView {
        RawKumaMangaDetailDataView {
            data: self.data@,
            chapterlist: self.chapterlist@,
            related_series: views(self.related_series@),
        }
    }
}

/// Collects the fields of a [`RawKumaMangaDetailData`] one by one; `build` yields the record
/// once every field has been set.
#[derive(Clone, Debug)]
pub struct RawKumaMangaDetailDataBuilder {
    pub data: Option<BixboxData>,
    pub chapterlist: Option<ChapterList>,
    pub related_series: Option<Vec<BsxTitleData>>,
}

impl Default for RawKumaMangaDetailDataBuilder {
    fn default() -> (b: RawKumaMangaDetailDataBuilder)
        ensures
            b.data is None,
            b.chapterlist is None,
            b.related_series is None,
    {
        RawKumaMangaDetailDataBuilder {
            data: None,
            chapterlist: None,
            related_series: None,
        }
    }
}

impl RawKumaMangaDetailDataBuilder {
    /// The name of the first field, in the order of the record, that has
    /// not been set.
    pub open spec fn missing(&self) -> Option<Seq<char>> {
        if self.data is None {
            Some("data"@)
        } else if self.chapterlist is None {
            Some("chapterlist"@)
        } else if self.related_series is None {
            Some("related_series"@)
        } else {
            None
        }
    }

    /// The record that the fields make up, once none is missing.
    pub open spec fn complete(&self) -> RawKumaMangaDetailData {
        RawKumaMangaDetailData {
            data: self.data->Some_0,
            chapterlist: self.chapterlist->Some_0,
            related_series: self.related_series->Some_0,
        }
    }

    /// Sets `data`.
    pub fn data(self, value: BixboxData) -> (b: RawKumaMangaDetailDataBuilder)
        ensures
            b == (RawKumaMangaDetailDataBuilder {
                data: Some(value),
                chapterlist: self.chapterlist,
                related_series: self.related_series,
            }),
    {
        RawKumaMangaDetailDataBuilder {
            data: Some(value),
            chapterlist: self.chapterlist,
            related_series: self.related_series,
        }
    }

    /// Sets `chapterlist`.
    pub fn chapterlist(self, value: ChapterList) -> (b: RawKumaMangaDetailDataBuilder)
        ensures
            b == (RawKumaMangaDetailDataBuilder {
                data: self.data,
                chapterlist: Some(value),
                related_series: self.related_series,
            }),
    {
        RawKumaMangaDetailDataBuilder {
            data: self.data,
            chapterlist: Some(value),
            related_series: self.related_series,
        }
    }

    /// Sets `related_series`.
    pub fn related_series(self, value: Vec<BsxTitleData>) -> (b: RawKumaMangaDetailDataBuilder)
        ensures
            b == (RawKumaMangaDetailDataBuilder {
                data: self.data,
                chapterlist: self.chapterlist,
                related_series: Some(value),
            }),
    {
        RawKumaMangaDetailDataBuilder {
            data: self.data,
            chapterlist: self.chapterlist,
            related_series: Some(value),
        }
    }

    /// Yields the record, or names the first field that was never set.
    pub fn build(self) -> (r: Result<RawKumaMangaDetailData, BuilderError>)
        ensures
            match self.missing() {
                Some(field) => r is Err && r->Err_0@ == BuilderErrorView::UninitializedField(field),
                None => r == Ok::<RawKumaMangaDetailData, BuilderError>(self.complete()),
            },
    {
        let data = match self.data {
            Some(value) => value,
            None => return Err(BuilderError::UninitializedField(String::from_str("data"))),
        };
        let chapterlist = match self.chapterlist {
            Some(value) => value,
            None => return Err(BuilderError::UninitializedField(String::from_str("chapterlist"))),
        };
        let related_series = match self.related_series {
            Some(value) => value,
            None => return Err(BuilderError::UninitializedField(String::from_str("related_series"))),
        };
        Ok(RawKumaMangaDetailData { data, chapterlist, related_series })
    }
}

impl<'a> FromHtmlParser<'a, RawKumaMangaDetailParser<'a>> for RawKumaMangaDetailData {
    open spec fn assembled(parser: RawKumaMangaDetailParser<'a>) -> Result<
        RawKumaMangaDetailDataView,
        ErrorView,
    > {
        match parser.bixbox_data() {
            Err(error) => Err(error),
            Ok(data) => match parser.chapter_list() {
                Err(error) => Err(error),
                Ok(chapterlist) => match cards_of(parser.content) {
                    Err(error) => Err(error),
                    Ok(related_series) => Ok(
                        RawKumaMangaDetailDataView { data, chapterlist, related_series },
                    ),
                },
            },
        }
    }

    fn from(parser: RawKumaMangaDetailParser<'a>) -> (r: RawKumaResult<RawKumaMangaDetailData>) {
        let data = parser.get_bixbox_data()?;
        let chapterlist = parser.get_chapter_list()?;
        let related_series = parser.get_related_series()?;
        finished(
            RawKumaMangaDetailDataBuilder::default().data(data).chapterlist(
                chapterlist,
            ).related_series(related_series).build(),
        )
    }
}

/// A page without the metadata block yields no record at all: assembly
/// fails with the absence of the block.
pub proof fn lemma_missing_metadata<'a>(parser: RawKumaMangaDetailParser<'a>)
    requires
        lookup_all(parser.content, "div.bixbox.animefull"@) == Ok::<
            Seq<scraper::ElementRef<'a>>,
            ErrorView,
        >(Seq::empty()),
    ensures
        RawKumaMangaDetailData::assembled(parser) == Err::<RawKumaMangaDetailDataView, ErrorView>(
            ErrorView::ElementNotFound("div.bixbox.animefull"@),
        ),
{
}

} // verus!
