//! The chapter list of a series and its entries.

use vstd::prelude::*;
use crate::dom::{
    compile, compiled, element_result, elements_result, first_text_or_empty, html_of,
    lookup_all, lookup_first, lookup_optional, read_html, required_attr,
    required_attr_of, select_all, select_first, select_optional, text_or_empty,
    text_result,
};
use crate::error::{BuilderError, BuilderErrorView, ErrorView, RawKumaResult, finished, result_view};
use crate::scalar::{
    absolute_url, absolute_url_of, Decimal, decimal_result_of, DecimalView, parse_float,
};
use crate::types::{FromElementRef, successes, all_or_first_failure, views};

verus! {

/// The chapters of a series, in document order.
#[derive(Clone, Debug)]
pub struct ChapterList {
    /// The chapters, as the page lists them; never sorted anew.
    pub chapters: Vec<Chapter>,
}

/// Mathematical model of a [`ChapterList`].
pub struct ChapterListView {
    pub chapters: Seq<ChapterView>,
}

impl View for ChapterList {
    type V = ChapterListView;

    open spec fn view(&self) -> ChapterListView {
        ChapterListView {
            chapters: views(self.chapters@),
        }
    }
}

/// Collects the fields of a [`ChapterList`] one by one; `build` yields the record
/// once every field has been set.
#[derive(Clone, Debug)]
pub struct ChapterListBuilder {
    pub chapters: Option<Vec<Chapter>>,
}

impl Default for ChapterListBuilder {
    fn default() -> (b: ChapterListBuilder)
        ensures
            b.chapters is None,
    {
        ChapterListBuilder {
            chapters: None,
        }
    }
}

impl ChapterListBuilder {
    /// The name of the first field, in the order of the record, that has
    /// not been set.
    pub open spec fn missing(&self) -> Option<Seq<char>> {
        if self.chapters is None {
            Some("chapters"@)
        } else {
            None
        }
    }

    /// The record that the fields make up, once none is missing.
    pub open spec fn complete(&self) -> ChapterList {
        ChapterList {
            chapters: self.chapters->Some_0,
        }
    }

    /// Sets `chapters`.
    pub fn chapters(self, value: Vec<Chapter>) -> (b: ChapterListBuilder)
        ensures
            b == (ChapterListBuilder {
                chapters: Some(value),
            }),
    {
        ChapterListBuilder {
            chapters: Some(value),
        }
    }

    /// Yields the record, or names the first field that was never set.
    pub fn build(self) -> (r: Result<ChapterList, BuilderError>)
        ensures
            match self.missing() {
                Some(field) => r is Err && r->Err_0@ == BuilderErrorView::UninitializedField(field),
                None => r == Ok::<ChapterList, BuilderError>(self.complete()),
            },
    {
        let chapters = match self.chapters {
            Some(value) => value,
            None => return Err(BuilderError::UninitializedField(String::from_str("chapters"))),
        };
        Ok(ChapterList { chapters })
    }
}

/// One entry of a chapter list.
#[derive(Clone, Debug)]
pub struct Chapter {
    /// The page of the chapter: an absolute URL.
    pub url: String,
    /// The label of the chapter; empty where the page gives none.
    pub chapter_num: String,
    /// The date label of the chapter; empty where the page gives none.
    pub chapter_date: String,
    /// The ordinal of the chapter, by which chapters are ordered.
    pub num: Decimal,
    /// Where the chapter can be downloaded: an absolute URL.
    pub download_link: String,
}

/// Mathematical model of a [`Chapter`].
pub struct ChapterView {
    pub url: Seq<char>,
    pub chapter_num: Seq<char>,
    pub chapter_date: Seq<char>,
    pub num: DecimalView,
    pub download_link: Seq<char>,
}

impl View for Chapter {
    type V = ChapterView;

    open spec fn view(&self) -> ChapterView {
        ChapterView {
            url: self.url@,
            chapter_num: self.chapter_num@,
            chapter_date: self.chapter_date@,
            num: self.num@,
            download_link: self.download_link@,
        }
    }
}

/// Collects the fields of a [`Chapter`] one by one; `build` yields the record
/// once every field has been set.
#[derive(Clone, Debug)]
pub struct ChapterBuilder {
    pub url: Option<String>,
    pub chapter_num: Option<String>,
    pub chapter_date: Option<String>,
    pub num: Option<Decimal>,
    pub download_link: Option<String>,
}

impl Default for ChapterBuilder {
    fn default() -> (b: ChapterBuilder)
        ensures
            b.url is None,
            b.chapter_num is None,
            b.chapter_date is None,
            b.num is None,
            b.download_link is None,
    {
        ChapterBuilder {
            url: None,
            chapter_num: None,
            chapter_date: None,
            num: None,
            download_link: None,
        }
    }
}

impl ChapterBuilder {
    /// The name of the first field, in the order of the record, that has
    /// not been set.
    pub open spec fn missing(&self) -> Option<Seq<char>> {
        if self.url is None {
            Some("url"@)
        } else if self.chapter_num is None {
            Some("chapter_num"@)
        } else if self.chapter_date is None {
            Some("chapter_date"@)
        } else if self.num is None {
            Some("num"@)
        } else if self.download_link is None {
            Some("download_link"@)
        } else {
            None
        }
    }

    /// The record that the fields make up, once none is missing.
    pub open spec fn complete(&self) -> Chapter {
        Chapter {
            url: self.url->Some_0,
            chapter_num: self.chapter_num->Some_0,
            chapter_date: self.chapter_date->Some_0,
            num: self.num->Some_0,
            download_link: self.download_link->Some_0,
        }
    }

    /// Sets `url`.
    pub fn url(self, value: String) -> (b: ChapterBuilder)
        ensures
            b == (ChapterBuilder {
                url: Some(value),
                chapter_num: self.chapter_num,
                chapter_date: self.chapter_date,
                num: self.num,
                download_link: self.download_link,
            }),
    {
        ChapterBuilder {
            url: Some(value),
            chapter_num: self.chapter_num,
            chapter_date: self.chapter_date,
            num: self.num,
            download_link: self.download_link,
        }
    }

    /// Sets `chapter_num`.
    pub fn chapter_num(self, value: String) -> (b: ChapterBuilder)
        ensures
            b == (ChapterBuilder {
                url: self.url,
                chapter_num: Some(value),
                chapter_date: self.chapter_date,
                num: self.num,
                download_link: self.download_link,
            }),
    {
        ChapterBuilder {
            url: self.url,
            chapter_num: Some(value),
            chapter_date: self.chapter_date,
            num: self.num,
            download_link: self.download_link,
        }
    }

    /// Sets `chapter_date`.
    pub fn chapter_date(self, value: String) -> (b: ChapterBuilder)
        ensures
            b == (ChapterBuilder {
                url: self.url,
                chapter_num: self.chapter_num,
                chapter_date: Some(value),
                num: self.num,
                download_link: self.download_link,
            }),
    {
        ChapterBuilder {
            url: self.url,
            chapter_num: self.chapter_num,
            chapter_date: Some(value),
            num: self.num,
            download_link: self.download_link,
        }
    }

    /// Sets `num`.
    pub fn num(self, value: Decimal) -> (b: ChapterBuilder)
        ensures
            b == (ChapterBuilder {
                url: self.url,
                chapter_num: self.chapter_num,
                chapter_date: self.chapter_date,
                num: Some(value),
                download_link: self.download_link,
            }),
    {
        ChapterBuilder {
            url: self.url,
            chapter_num: self.chapter_num,
            chapter_date: self.chapter_date,
            num: Some(value),
            download_link: self.download_link,
        }
    }

    /// Sets `download_link`.
    pub fn download_link(self, value: String) -> (b: ChapterBuilder)
        ensures
            b == (ChapterBuilder {
                url: self.url,
                chapter_num: self.chapter_num,
                chapter_date: self.chapter_date,
                num: self.num,
                download_link: Some(value),
            }),
    {
        ChapterBuilder {
            url: self.url,
            chapter_num: self.chapter_num,
            chapter_date: self.chapter_date,
            num: self.num,
            download_link: Some(value),
        }
    }

    /// Yields the record, or names the first field that was never set.
    pub fn build(self) -> (r: Result<Chapter, BuilderError>)
        ensures
            match self.missing() {
                Some(field) => r is Err && r->Err_0@ == BuilderErrorView::UninitializedField(field),
                None => r == Ok::<Chapter, BuilderError>(self.complete()),
            },
    {
        let url = match self.url {
            Some(value) => value,
            None => return Err(BuilderError::UninitializedField(String::from_str("url"))),
        };
        let chapter_num = match self.chapter_num {
            Some(value) => value,
            None => return Err(BuilderError::UninitializedField(String::from_str("chapter_num"))),
        };
        let chapter_date = match self.chapter_date {
            Some(value) => value,
            None => return Err(BuilderError::UninitializedField(String::from_str("chapter_date"))),
        };
        let num = match self.num {
            Some(value) => value,
            None => return Err(BuilderError::UninitializedField(String::from_str("num"))),
        };
        let download_link = match self.download_link {
            Some(value) => value,
            None => return Err(BuilderError::UninitializedField(String::from_str("download_link"))),
        };
        Ok(Chapter { url, chapter_num, chapter_date, num, download_link })
    }
}

/// The chapters of a chapter list under the tolerant policy: every item
/// that reads as a chapter, in document order.
pub open spec fn chapters_of<'a>(data: scraper::ElementRef<'a>) -> Result<Seq<ChapterView>, ErrorView> {
    match lookup_all(data, "li[data-num]"@) {
        Err(error) => Err(error),
        Ok(items) => Ok(
            successes(items.map_values(|e: scraper::ElementRef<'a>| Chapter::extracted(e))),
        ),
    }
}

/// The chapters of a chapter list under the strict policy: every item, or
/// the failure of the first item that does not read as a chapter.
pub open spec fn chapters_strictly_of<'a>(data: scraper::ElementRef<'a>) -> Result<
    Seq<ChapterView>,
    ErrorView,
> {
    match lookup_all(data, "li[data-num]"@) {
        Err(error) => Err(error),
        Ok(items) => all_or_first_failure(
            items.map_values(|e: scraper::ElementRef<'a>| Chapter::extracted(e)),
        ),
    }
}

impl ChapterList {
    /// The selector of the chapter-list container.
    pub fn get_chapter_list_selector() -> (r: RawKumaResult<scraper::Selector>)
        ensures
            compiled(r, "div#chapterlist"@),
    {
        compile("div#chapterlist")
    }

    /// The chapter-list container of a page.
    pub fn get_chapter_list_element<'a>(data: &scraper::ElementRef<'a>) -> (r: RawKumaResult<
        scraper::ElementRef<'a>,
    >)
        ensures
            element_result(r) == lookup_first(*data, "div#chapterlist"@, "div#chapterlist"@),
    {
        select_first(data, "div#chapterlist", "div#chapterlist")
    }

    /// The chapter items of a container, in document order.
    pub fn get_chapters_elements<'a>(data: &scraper::ElementRef<'a>) -> (r: RawKumaResult<
        Vec<scraper::ElementRef<'a>>,
    >)
        ensures
            elements_result(r) == lookup_all(*data, "li[data-num]"@),
    {
        select_all(data, "li[data-num]")
    }

    /// Reads the chapter list and insists on every item: the first item
    /// that does not read as a chapter fails the whole list.
    pub fn from_element_ref_strict(data: &scraper::ElementRef) -> (r: RawKumaResult<ChapterList>)
        ensures
            match r {
                Ok(list) => chapters_strictly_of(*data) == Ok::<Seq<ChapterView>, ErrorView>(
                    list@.chapters,
                ),
                Err(error) => chapters_strictly_of(*data) == Err::<Seq<ChapterView>, ErrorView>(
                    error@,
                ),
            },
    {
        let items = Self::get_chapters_elements(data)?;
        let chapters = Chapter::from_vec_element_strict(&items)?;
        finished(ChapterListBuilder::default().chapters(chapters).build())
    }
}

impl<'a> FromElementRef<'a> for ChapterList {
    open spec fn extracted(data: scraper::ElementRef<'a>) -> Result<ChapterListView, ErrorView> {
        match chapters_of(data) {
            Err(error) => Err(error),
            Ok(chapters) => Ok(ChapterListView { chapters }),
        }
    }

    fn from_element_ref(data: &scraper::ElementRef<'a>) -> (r: RawKumaResult<ChapterList>) {
        let items = Self::get_chapters_elements(data)?;
        let chapters = Chapter::from_vec_element(&items)?;
        finished(ChapterListBuilder::default().chapters(chapters).build())
    }
}

/// The link of a chapter item: the first link of its number block.
pub open spec fn a_ephnum_of(data: scraper::ElementRef) -> Result<scraper::ElementRef, ErrorView> {
    match lookup_first(data, "div.eph-num"@, "div.eph-num"@) {
        Err(error) => Err(error),
        Ok(block) => lookup_first(block, "a"@, "div.eph-num a"@),
    }
}

/// The label element of a chapter item.
pub open spec fn chapternum_element_of(data: scraper::ElementRef) -> Result<
    scraper::ElementRef,
    ErrorView,
> {
    match a_ephnum_of(data) {
        Err(error) => Err(error),
        Ok(link) => lookup_first(link, ".chapternum"@, "div.eph-num a .chapternum"@),
    }
}

/// The date element of a chapter item.
pub open spec fn chapterdate_element_of(data: scraper::ElementRef) -> Result<
    scraper::ElementRef,
    ErrorView,
> {
    match a_ephnum_of(data) {
        Err(error) => Err(error),
        Ok(link) => lookup_first(link, ".chapterdate"@, "div.eph-num a .chapterdate"@),
    }
}

/// The page of a chapter: the `href` of its link.
pub open spec fn a_ephnum_data_of(data: scraper::ElementRef) -> Result<Seq<char>, ErrorView> {
    match a_ephnum_of(data) {
        Err(error) => Err(error),
        Ok(link) => match required_attr_of(link, "href"@, "a > .eph-num"@) {
            Err(error) => Err(error),
            Ok(href) => absolute_url_of(href),
        },
    }
}

/// The first text of the first match of `pattern` below `link`; empty where
/// nothing matches or the match holds no text.
pub open spec fn label_of(link: scraper::ElementRef, pattern: Seq<char>) -> Result<
    Seq<char>,
    ErrorView,
> {
    match lookup_optional(link, pattern) {
        Err(error) => Err(error),
        Ok(None) => Ok(Seq::empty()),
        Ok(Some(label)) => Ok(text_or_empty(label)),
    }
}

/// The label of a chapter: the first text of the label element of its link.
/// The label is free text and optional: it is empty where the page gives
/// none.
pub open spec fn chapternum_data_of(data: scraper::ElementRef) -> Result<Seq<char>, ErrorView> {
    match a_ephnum_of(data) {
        Err(error) => Err(error),
        Ok(link) => label_of(link, ".chapternum"@),
    }
}

/// The date label of a chapter: the first text of the date element of its
/// link. The label is free text and optional: it is empty where the page
/// gives none.
pub open spec fn chapterdate_data_of(data: scraper::ElementRef) -> Result<Seq<char>, ErrorView> {
    match a_ephnum_of(data) {
        Err(error) => Err(error),
        Ok(link) => label_of(link, ".chapterdate"@),
    }
}

fn read_label(link: &scraper::ElementRef, pattern: &str) -> (r: RawKumaResult<String>)
    ensures
        text_result(r) == label_of(*link, pattern@),
{
    match select_optional(link, pattern)? {
        Some(label) => Ok(first_text_or_empty(&label)),
        None => Ok(String::new()),
    }
}

/// The ordinal of a chapter: its `data-num` attribute, read as a decimal
/// number. An item without the attribute is reported with its own markup.
pub open spec fn data_num_of(data: scraper::ElementRef) -> Result<DecimalView, ErrorView> {
    match required_attr_of(data, "data-num"@, html_of(data)) {
        Err(error) => Err(error),
        Ok(raw) => decimal_result_of(raw),
    }
}

/// The download link of a chapter: the `href` of its download anchor.
pub open spec fn dload_data_of(data: scraper::ElementRef) -> Result<Seq<char>, ErrorView> {
    match lookup_first(data, "a.dload"@, "a.dload"@) {
        Err(error) => Err(error),
        Ok(link) => match required_attr_of(link, "href"@, "a.dload"@) {
            Err(error) => Err(error),
            Ok(href) => absolute_url_of(href),
        },
    }
}

impl Chapter {
    /// The selector of one chapter item.
    pub fn get_data_num_selector() -> (r: RawKumaResult<scraper::Selector>)
        ensures
            compiled(r, "li[data-num]"@),
    {
        compile("li[data-num]")
    }

    /// The selector of the number block of an item.
    pub fn get_eph_num_selector() -> (r: RawKumaResult<scraper::Selector>)
        ensures
            compiled(r, "div.eph-num"@),
    {
        compile("div.eph-num")
    }

    /// The selector of the download anchor of an item.
    pub fn get_dload_a_selector() -> (r: RawKumaResult<scraper::Selector>)
        ensures
            compiled(r, "a.dload"@),
    {
        compile("a.dload")
    }

    /// The selector of a link.
    pub fn get_a_selector() -> (r: RawKumaResult<scraper::Selector>)
        ensures
            compiled(r, "a"@),
    {
        compile("a")
    }

    /// The selector of the label element of an item.
    pub fn get_chapternum_selector() -> (r: RawKumaResult<scraper::Selector>)
        ensures
            compiled(r, ".chapternum"@),
    {
        compile(".chapternum")
    }

    /// The selector of the date element of an item.
    pub fn get_chapterdate_selector() -> (r: RawKumaResult<scraper::Selector>)
        ensures
            compiled(r, ".chapterdate"@),
    {
        compile(".chapterdate")
    }

    /// The number block of an item.
    pub fn get_eph_num_element<'a>(data: &scraper::ElementRef<'a>) -> (r: RawKumaResult<
        scraper::ElementRef<'a>,
    >)
        ensures
            element_result(r) == lookup_first(*data, "div.eph-num"@, "div.eph-num"@),
    {
        select_first(data, "div.eph-num", "div.eph-num")
    }

    /// The download anchor of an item.
    pub fn get_dload_element<'a>(data: &scraper::ElementRef<'a>) -> (r: RawKumaResult<
        scraper::ElementRef<'a>,
    >)
        ensures
            element_result(r) == lookup_first(*data, "a.dload"@, "a.dload"@),
    {
        select_first(data, "a.dload", "a.dload")
    }

    /// The link of an item.
    pub fn get_a_ephnum_element<'a>(data: &scraper::ElementRef<'a>) -> (r: RawKumaResult<
        scraper::ElementRef<'a>,
    >)
        ensures
            element_result(r) == a_ephnum_of(*data),
    {
        let block = Self::get_eph_num_element(data)?;
        select_first(&block, "a", "div.eph-num a")
    }

    /// The date element of an item.
    pub fn get_chapterdate_element<'a>(data: &scraper::ElementRef<'a>) -> (r: RawKumaResult<
        scraper::ElementRef<'a>,
    >)
        ensures
            element_result(r) == chapterdate_element_of(*data),
    {
        let link = Self::get_a_ephnum_element(data)?;
        select_first(&link, ".chapterdate", "div.eph-num a .chapterdate")
    }

    /// The label element of an item.
    pub fn get_chapternum_element<'a>(data: &scraper::ElementRef<'a>) -> (r: RawKumaResult<
        scraper::ElementRef<'a>,
    >)
        ensures
            element_result(r) == chapternum_element_of(*data),
    {
        let link = Self::get_a_ephnum_element(data)?;
        select_first(&link, ".chapternum", "div.eph-num a .chapternum")
    }

    /// The page of a chapter.
    pub fn get_a_ephnum_data(data: &scraper::ElementRef) -> (r: RawKumaResult<String>)
        ensures
            text_result(r) == a_ephnum_data_of(*data),
    {
        let link = Self::get_a_ephnum_element(data)?;
        let href = required_attr(&link, "href", "a > .eph-num")?;
        absolute_url(href.as_str())
    }

    /// The label of a chapter.
    pub fn get_chapternum_data(data: &scraper::ElementRef) -> (r: RawKumaResult<String>)
        ensures
            text_result(r) == chapternum_data_of(*data),
    {
        let link = Self::get_a_ephnum_element(data)?;
        read_label(&link, ".chapternum")
    }

    /// The date label of a chapter.
    pub fn get_chapterdate_data(data: &scraper::ElementRef) -> (r: RawKumaResult<String>)
        ensures
            text_result(r) == chapterdate_data_of(*data),
    {
        let link = Self::get_a_ephnum_element(data)?;
        read_label(&link, ".chapterdate")
    }

    /// The ordinal of a chapter.
    pub fn get_data_num(data: &scraper::ElementRef) -> (r: RawKumaResult<Decimal>)
        ensures
            result_view(r) == data_num_of(*data),
    {
        let markup = read_html(data);
        let raw = required_attr(data, "data-num", markup.as_str())?;
        parse_float(raw.as_str())
    }

    /// The download link of a chapter.
    pub fn get_dload_data(data: &scraper::ElementRef) -> (r: RawKumaResult<String>)
        ensures
            text_result(r) == dload_data_of(*data),
    {
        let link = Self::get_dload_element(data)?;
        let href = required_attr(&link, "href", "a.dload")?;
        absolute_url(href.as_str())
    }
}

impl<'a> FromElementRef<'a> for Chapter {
    open spec fn extracted(data: scraper::ElementRef<'a>) -> Result<ChapterView, ErrorView> {
        match chapterdate_data_of(data) {
            Err(error) => Err(error),
            Ok(chapter_date) => match chapternum_data_of(data) {
                Err(error) => Err(error),
                Ok(chapter_num) => match dload_data_of(data) {
                    Err(error) => Err(error),
                    Ok(download_link) => match data_num_of(data) {
                        Err(error) => Err(error),
                        Ok(num) => match a_ephnum_data_of(data) {
                            Err(error) => Err(error),
                            Ok(url) => Ok(
                                ChapterView { url, chapter_num, chapter_date, num, download_link },
                            ),
                        },
                    },
                },
            },
        }
    }

    fn from_element_ref(data: &scraper::ElementRef<'a>) -> (r: RawKumaResult<Chapter>) {
        let chapter_date = Self::get_chapterdate_data(data)?;
        let chapter_num = Self::get_chapternum_data(data)?;
        let download_link = Self::get_dload_data(data)?;
        let num = Self::get_data_num(data)?;
        let url = Self::get_a_ephnum_data(data)?;
        finished(
            ChapterBuilder::default().chapter_date(chapter_date).chapter_num(
                chapter_num,
            ).download_link(download_link).num(num).url(url).build(),
        )
    }
}

} // verus!
