//! The parser of the reader page of one chapter.

use vstd::prelude::*;
use crate::dom::{
    all_text, inner_html_of, joined, lookup_first, select_first, text_result, texts_of,
};
use crate::error::{BuilderError, BuilderErrorView, Error, ErrorView, RawKumaResult, result_view};
use crate::parser::{HtmlParser, content_of, get_content_element};
use crate::text::framed;
use crate::types::bsx::{BsxTitleData, cards_of};
use crate::types::reader_area::{ReaderArea, ReaderAreaView};
use crate::types::ts_reader_args::{ReaderConfig, TSReaderArgs, TSReaderArgsView, reader_args_of};
use crate::types::{FromElementRef, list_result};

verus! {

/// The accessors of a chapter page. The reader configuration stands in a
/// script of the page as JSON; once it has been decoded it is handed to the
/// parser, which checks it.
pub struct RawKumaChapterParser<'a> {
    /// The content region of the page.
    pub content: scraper::ElementRef<'a>,
    /// The decoded reader configuration, once it has been supplied.
    pub reader: Option<ReaderConfig>,
}

impl<'a> View for RawKumaChapterParser<'a> {
    type V = RawKumaChapterParser<'a>;

    open spec fn view(&self) -> RawKumaChapterParser<'a> {
        *self
    }
}

impl<'a> HtmlParser<'a> for RawKumaChapterParser<'a> {
    open spec fn located(html: &'a scraper::Html) -> Result<Self, ErrorView> {
        match content_of(html) {
            Err(error) => Err(error),
            Ok(content) => Ok(RawKumaChapterParser { content, reader: None }),
        }
    }

    fn init(html: &'a scraper::Html) -> (r: RawKumaResult<Self>) {
        let content = get_content_element(html)?;
        Ok(RawKumaChapterParser { content, reader: None })
    }
}

impl<'a> RawKumaChapterParser<'a> {
    /// The title of the chapter: every text of the first heading, joined.
    pub open spec fn entry_title(self) -> Result<Seq<char>, ErrorView> {
        match lookup_first(self.content, "h1"@, "h1"@) {
            Err(error) => Err(error),
            Ok(heading) => Ok(joined(texts_of(heading))),
        }
    }

    /// The JSON text of the reader configuration: the braced part of the
    /// reader script.
    pub open spec fn ts_reader_script(self) -> Result<Seq<char>, ErrorView> {
        match lookup_first(
            self.content,
            "div.readingnav.rnavbot + script"@,
            "div.readingnav.rnavbot + script"@,
        ) {
            Err(error) => Err(error),
            Ok(script) => Ok(framed(inner_html_of(script))),
        }
    }

    /// The checked reader configuration. Until a decoded configuration has
    /// been supplied the field has no value.
    pub open spec fn ts_reader_args(self) -> Result<TSReaderArgsView, ErrorView> {
        match self.reader {
            None => Err(
                ErrorView::IncompleteRecord(BuilderErrorView::UninitializedField("sources"@)),
            ),
            Some(config) => reader_args_of(config@),
        }
    }

    /// The page images of the chapter as the reader area lists them.
    pub open spec fn reader_area_data(self) -> Result<ReaderAreaView, ErrorView> {
        match lookup_first(self.content, "#readerarea"@, "#readerarea"@) {
            Err(error) => Err(error),
            Ok(area) => ReaderArea::extracted(area),
        }
    }

    /// Hands the decoded reader configuration to the parser.
    pub fn with_reader_config(self, config: ReaderConfig) -> (p: Self)
        ensures
            p == (RawKumaChapterParser { content: self.content, reader: Some(config) }),
    {
        RawKumaChapterParser { content: self.content, reader: Some(config) }
    }

    /// The series related to this chapter, in document order. A card that
    /// does not read as a series is skipped.
    pub fn get_related_manga(&self) -> (r: RawKumaResult<Vec<BsxTitleData>>)
        ensures
            list_result(r) == cards_of(self.content),
    {
        let elements = BsxTitleData::get_bsx_elements(&self.content)?;
        BsxTitleData::from_vec_element(&elements)
    }

    /// The JSON text of the reader configuration, ready to be decoded.
    pub fn get_ts_reader_script(&self) -> (r: RawKumaResult<String>)
        ensures
            text_result(r) == self.ts_reader_script(),
    {
        let script = TSReaderArgs::get_ts_reader_script_element(&self.content)?;
        Ok(TSReaderArgs::script_json(&script))
    }

    /// The checked reader configuration.
    pub fn get_ts_reader_args(&self) -> (r: RawKumaResult<TSReaderArgs>)
        ensures
            result_view(r) == self.ts_reader_args(),
    {
        match &self.reader {
            None => Err(
                Error::IncompleteRecord(
                    BuilderError::UninitializedField(String::from_str("sources")),
                ),
            ),
            Some(config) => TSReaderArgs::from_config(config),
        }
    }

    /// The page images of the chapter, read from the reader area.
    pub fn get_reader_area_data(&self) -> (r: RawKumaResult<ReaderArea>)
        ensures
            result_view(r) == self.reader_area_data(),
    {
        let area = ReaderArea::get_reader_area_element(&self.content)?;
        ReaderArea::from_element_ref(&area)
    }

    /// The title of the chapter.
    pub fn get_entry_title(&self) -> (r: RawKumaResult<String>)
        ensures
            text_result(r) == self.entry_title(),
    {
        let heading = select_first(&self.content, "h1", "h1")?;
        Ok(all_text(&heading))
    }
}

} // verus!
