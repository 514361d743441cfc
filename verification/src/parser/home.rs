//! The parser of the home page.

use vstd::prelude::*;
use crate::dom::{
    compile, compile_failure_of, compiled, element_result, elements_result, first_of,
    first_text, first_text_of, lookup_all, lookup_first, matches_of, required_attr,
    required_attr_of, select_all, select_first, select_within,
};
use crate::error::{ErrorView, RawKumaResult, element_not_found};
use crate::parser::{HtmlParser, content_of, get_content_element};
use crate::types::bsx::{BsxTitleData, BsxTitleDataView};
use crate::types::categories::{
    CategoryMap, deep_entries, lemma_upserted_values, list_entries, upserted_all,
};
use crate::types::utao::{UtaoTitleData};
use crate::types::{
    all_or_first_failure, FromElementRef, is_first_failure, lemma_first_failure_unique,
    successes, views,
};

verus! {

/// The accessors of the home page: the cards of the "popular today" block,
/// the cards of each recommendation category, and the latest-update
/// blocks.
pub struct RawKumaHomeParser<'a> {
    pub popular_today: Vec<scraper::ElementRef<'a>>,
    pub recommandation: CategoryMap<Vec<scraper::ElementRef<'a>>>,
    pub utao_elements: Vec<scraper::ElementRef<'a>>,
}

/// Mathematical model of a [`RawKumaHomeParser`].
pub struct RawKumaHomeParserView<'a> {
    pub popular_today: Seq<scraper::ElementRef<'a>>,
    pub recommandation: Seq<(Seq<char>, Seq<scraper::ElementRef<'a>>)>,
    pub utao_elements: Seq<scraper::ElementRef<'a>>,
}

impl<'a> View for RawKumaHomeParser<'a> {
    type V = RawKumaHomeParserView<'a>;

    open spec fn view(&self) -> RawKumaHomeParserView<'a> {
        RawKumaHomeParserView {
            popular_today: self.popular_today@,
            recommandation: list_entries(self.recommandation.entries@),
            utao_elements: self.utao_elements@,
        }
    }
}

/// The listing blocks of the page, in document order.
pub open spec fn listupd_of<'a>(html: &'a scraper::Html) -> Result<
    Seq<scraper::ElementRef<'a>>,
    ErrorView,
> {
    match content_of(html) {
        Err(error) => Err(error),
        Ok(content) => lookup_all(content, r#"div[class="listupd"]"#@),
    }
}

/// The "popular today" block: the first listing block of the content
/// region. Its absence is reported under the selector of listing blocks,
/// which is the one that was searched.
pub open spec fn hothome_of<'a>(html: &'a scraper::Html) -> Result<
    scraper::ElementRef<'a>,
    ErrorView,
> {
    first_of(listupd_of(html), r#"div[class="listupd"]"#@)
}

/// The cards of the "popular today" block, in document order.
pub open spec fn popular_elements_of<'a>(html: &'a scraper::Html) -> Result<
    Seq<scraper::ElementRef<'a>>,
    ErrorView,
> {
    match hothome_of(html) {
        Err(error) => Err(error),
        Ok(block) => lookup_all(block, r#"div[class="bsx"]"#@),
    }
}

/// The recommendation block of the page.
pub open spec fn series_gen_of<'a>(html: &'a scraper::Html) -> Result<
    scraper::ElementRef<'a>,
    ErrorView,
> {
    match content_of(html) {
        Err(error) => Err(error),
        Ok(content) => lookup_first(
            content,
            r#"div[class="series-gen"]"#@,
            r#"div[class="series-gen"]"#@,
        ),
    }
}

/// The row of category tabs inside the recommendation block.
pub open spec fn nav_tabs_of<'a>(html: &'a scraper::Html) -> Result<
    scraper::ElementRef<'a>,
    ErrorView,
> {
    match series_gen_of(html) {
        Err(error) => Err(error),
        Ok(block) => lookup_first(block, r#"ul[class="nav-tabs"]"#@, r#"ul[class="nav-tabs"]"#@),
    }
}

/// The category that one tab stands for: its label, and the element that
/// its `href` selects below `content`. The `href` is a selector made at run
/// time, and is compiled and checked like any other.
pub open spec fn theme_of<'a>(content: scraper::ElementRef<'a>, tab: scraper::ElementRef<'a>) -> Result<
    (Seq<char>, scraper::ElementRef<'a>),
    ErrorView,
> {
    match first_text_of(tab) {
        None => Err(ErrorView::ElementNotFound("a"@)),
        Some(label) => match required_attr_of(tab, "href"@, "a"@) {
            Err(error) => Err(error),
            Ok(href) => match lookup_first(content, href, href) {
                Err(error) => Err(error),
                Ok(element) => Ok((label, element)),
            },
        },
    }
}

/// The recommendation categories of the page, each with the element that
/// holds its cards. The first tab that fails to resolve fails them all; a
/// label that comes twice keeps its place and its last element.
pub open spec fn themes_of<'a>(html: &'a scraper::Html) -> Result<
    Seq<(Seq<char>, scraper::ElementRef<'a>)>,
    ErrorView,
> {
    match nav_tabs_of(html) {
        Err(error) => Err(error),
        Ok(nav) => match lookup_all(nav, "a"@) {
            Err(error) => Err(error),
            Ok(tabs) => match all_or_first_failure(
                tabs.map_values(|tab: scraper::ElementRef<'a>| theme_of(content_of(html)->Ok_0, tab)),
            ) {
                Err(error) => Err(error),
                Ok(pairs) => Ok(upserted_all(pairs)),
            },
        },
    }
}

/// The recommendation categories of the page, each with its cards in
/// document order.
pub open spec fn recommendation_elements_of<'a>(html: &'a scraper::Html) -> Result<
    Seq<(Seq<char>, Seq<scraper::ElementRef<'a>>)>,
    ErrorView,
> {
    match themes_of(html) {
        Err(error) => Err(error),
        Ok(themes) => match compile_failure_of(r#"div[class="bsx"]"#@) {
            Some(error) => Err(error),
            None => Ok(
                themes.map_values(
                    |t: (Seq<char>, scraper::ElementRef<'a>)|
                        (t.0, matches_of(t.1, r#"div[class="bsx"]"#@)),
                ),
            ),
        },
    }
}

/// The latest-update blocks of the page, in document order.
pub open spec fn utao_of<'a>(html: &'a scraper::Html) -> Result<
    Seq<scraper::ElementRef<'a>>,
    ErrorView,
> {
    match content_of(html) {
        Err(error) => Err(error),
        Ok(content) => lookup_all(content, r#"div[class="utao"]"#@),
    }
}

/// The cards of each category, read under the tolerant policy.
pub open spec fn recommendations_read<'a>(
    entries: Seq<(String, Vec<scraper::ElementRef<'a>>)>,
) -> Seq<(Seq<char>, Seq<BsxTitleDataView>)> {
    entries.map_values(
        |e: (String, Vec<scraper::ElementRef<'a>>)|
            (
                e.0@,
                successes(
                    e.1@.map_values(|c: scraper::ElementRef<'a>| BsxTitleData::extracted(c)),
                ),
            ),
    )
}

impl<'a> HtmlParser<'a> for RawKumaHomeParser<'a> {
    open spec fn located(html: &'a scraper::Html) -> Result<RawKumaHomeParserView<'a>, ErrorView> {
        match popular_elements_of(html) {
            Err(error) => Err(error),
            Ok(popular_today) => match recommendation_elements_of(html) {
                Err(error) => Err(error),
                Ok(recommandation) => match utao_of(html) {
                    Err(error) => Err(error),
                    Ok(utao_elements) => Ok(
                        RawKumaHomeParserView { popular_today, recommandation, utao_elements },
                    ),
                },
            },
        }
    }

    fn init(html: &'a scraper::Html) -> (r: RawKumaResult<Self>) {
        let popular_today = Self::find_popular_today_elements(html)?;
        let recommandation = Self::find_recomendation_elements(html)?;
        let utao_elements = Self::get_utao_divs(html)?;
        Ok(RawKumaHomeParser { popular_today, recommandation, utao_elements })
    }
}

fn read_theme<'a>(content: &scraper::ElementRef<'a>, tab: &scraper::ElementRef<'a>) -> (r:
    RawKumaResult<(String, scraper::ElementRef<'a>)>)
    ensures
        match r {
            Ok(pair) => theme_of(*content, *tab) == Ok::<
                (Seq<char>, scraper::ElementRef<'a>),
                ErrorView,
            >((pair.0@, pair.1)),
            Err(error) => theme_of(*content, *tab) == Err::<
                (Seq<char>, scraper::ElementRef<'a>),
                ErrorView,
            >(error@),
        },
{
    let label = match first_text(tab) {
        Some(text) => text,
        None => return Err(element_not_found("a")),
    };
    let href = required_attr(tab, "href", "a")?;
    let element = select_first(content, href.as_str(), href.as_str())?;
    Ok((label, element))
}

impl<'a> RawKumaHomeParser<'a> {
    /// The selector of a listing block.
    pub fn div_listupd_selector() -> (r: RawKumaResult<scraper::Selector>)
        ensures
            compiled(r, r#"div[class="listupd"]"#@),
    {
        compile(r#"div[class="listupd"]"#)
    }

    /// The listing blocks of the page, in document order.
    pub fn get_div_listupd(html: &'a scraper::Html) -> (r: RawKumaResult<
        Vec<scraper::ElementRef<'a>>,
    >)
        ensures
            elements_result(r) == listupd_of(html),
    {
        let content = get_content_element(html)?;
        select_all(&content, r#"div[class="listupd"]"#)
    }

    /// The selector of the box that the site draws round the popular series.
    /// The block of their cards is found without it, as the first listing
    /// block: see [`RawKumaHomeParser::get_div_bixbox_hothome`].
    pub fn div_bixbox_hothome_selector() -> (r: RawKumaResult<scraper::Selector>)
        ensures
            compiled(r, r#"div[class="bixbox hothome"]"#@),
    {
        compile(r#"div[class="bixbox hothome"]"#)
    }

    /// The "popular today" block of the page: its first listing block.
    pub fn get_div_bixbox_hothome(html: &'a scraper::Html) -> (r: RawKumaResult<
        scraper::ElementRef<'a>,
    >)
        ensures
            element_result(r) == hothome_of(html),
    {
        let blocks = Self::get_div_listupd(html)?;
        if blocks.len() > 0 {
            Ok(blocks[0])
        } else {
            Err(element_not_found(r#"div[class="listupd"]"#))
        }
    }

    /// The cards of the "popular today" block, in document order.
    pub fn find_popular_today_elements(html: &'a scraper::Html) -> (r: RawKumaResult<
        Vec<scraper::ElementRef<'a>>,
    >)
        ensures
            elements_result(r) == popular_elements_of(html),
    {
        let block = Self::get_div_bixbox_hothome(html)?;
        select_all(&block, r#"div[class="bsx"]"#)
    }

    /// The selector of the recommendation block.
    pub fn div_series_gen_selector() -> (r: RawKumaResult<scraper::Selector>)
        ensures
            compiled(r, r#"div[class="series-gen"]"#@),
    {
        compile(r#"div[class="series-gen"]"#)
    }

    /// The recommendation block of the page.
    pub fn get_div_series_gen(html: &'a scraper::Html) -> (r: RawKumaResult<
        scraper::ElementRef<'a>,
    >)
        ensures
            element_result(r) == series_gen_of(html),
    {
        let content = get_content_element(html)?;
        select_first(&content, r#"div[class="series-gen"]"#, r#"div[class="series-gen"]"#)
    }

    /// The selector of the row of category tabs.
    pub fn div_nav_tabs_selector() -> (r: RawKumaResult<scraper::Selector>)
        ensures
            compiled(r, r#"ul[class="nav-tabs"]"#@),
    {
        compile(r#"ul[class="nav-tabs"]"#)
    }

    /// The row of category tabs below an element.
    pub fn get_div_nav_tabs(html: &scraper::ElementRef<'a>) -> (r: RawKumaResult<
        scraper::ElementRef<'a>,
    >)
        ensures
            element_result(r) == lookup_first(
                *html,
                r#"ul[class="nav-tabs"]"#@,
                r#"ul[class="nav-tabs"]"#@,
            ),
    {
        select_first(html, r#"ul[class="nav-tabs"]"#, r#"ul[class="nav-tabs"]"#)
    }

    /// The row of category tabs of the page.
    pub fn get_nav_serie_gen_divs(html: &'a scraper::Html) -> (r: RawKumaResult<
        scraper::ElementRef<'a>,
    >)
        ensures
            element_result(r) == nav_tabs_of(html),
    {
        let block = Self::get_div_series_gen(html)?;
        Self::get_div_nav_tabs(&block)
    }

    /// The recommendation categories of the page, each with the element
    /// that holds its cards.
    pub fn get_recommendation_themes(html: &'a scraper::Html) -> (r: RawKumaResult<
        CategoryMap<scraper::ElementRef<'a>>,
    >)
        ensures
            match r {
                Ok(refs) => themes_of(html) == Ok::<
                    Seq<(Seq<char>, scraper::ElementRef<'a>)>,
                    ErrorView,
                >(refs.model()) && refs.well_formed(),
                Err(error) => themes_of(html) == Err::<
                    Seq<(Seq<char>, scraper::ElementRef<'a>)>,
                    ErrorView,
                >(error@),
            },
    {
        let nav = Self::get_nav_serie_gen_divs(html)?;
        let tabs = select_all(&nav, "a")?;
        let content = get_content_element(html)?;
        let ghost outcomes = tabs@.map_values(
            |tab: scraper::ElementRef<'a>| theme_of(content_of(html)->Ok_0, tab),
        );
        let mut refs: CategoryMap<scraper::ElementRef<'a>> = CategoryMap::new();
        let mut i: usize = 0;
        while i < tabs.len()
            invariant
                i <= tabs@.len(),
                content_of(html) == Ok::<scraper::ElementRef<'a>, ErrorView>(content),
                nav_tabs_of(html) == Ok::<scraper::ElementRef<'a>, ErrorView>(nav),
                lookup_all(nav, "a"@) == Ok::<Seq<scraper::ElementRef<'a>>, ErrorView>(tabs@),
                outcomes == tabs@.map_values(
                    |tab: scraper::ElementRef<'a>| theme_of(content_of(html)->Ok_0, tab),
                ),
                forall|j: int| 0 <= j < i ==> (#[trigger] outcomes[j]) is Ok,
                refs.well_formed(),
                refs.model() == upserted_all(
                    outcomes.take(i as int).map_values(
                        |o: Result<(Seq<char>, scraper::ElementRef<'a>), ErrorView>| o->Ok_0,
                    ),
                ),
            decreases tabs@.len() - i,
        {
            let ghost value = |o: Result<(Seq<char>, scraper::ElementRef<'a>), ErrorView>| o->Ok_0;
            proof {
                assert(outcomes[i as int] == theme_of(content, tabs@[i as int]));
                assert(outcomes.take(i + 1).map_values(value).drop_last() =~= outcomes.take(
                    i as int,
                ).map_values(value));
            }
            match read_theme(&content, &tabs[i]) {
                Ok(pair) => {
                    refs.insert(pair.0, pair.1);
                },
                Err(error) => {
                    proof {
                        assert(is_first_failure(outcomes, i as int));
                        lemma_first_failure_unique(outcomes, i as int);
                    }
                    return Err(error);
                },
            }
            i = i + 1;
        }
        proof {
            assert(outcomes.take(i as int) =~= outcomes);
        }
        Ok(refs)
    }

    /// The recommendation categories of the page, each with its cards in
    /// document order.
    pub fn find_recomendation_elements(html: &'a scraper::Html) -> (r: RawKumaResult<
        CategoryMap<Vec<scraper::ElementRef<'a>>>,
    >)
        ensures
            match r {
                Ok(data) => recommendation_elements_of(html) == Ok::<
                    Seq<(Seq<char>, Seq<scraper::ElementRef<'a>>)>,
                    ErrorView,
                >(list_entries(data.entries@)) && data.well_formed(),
                Err(error) => recommendation_elements_of(html) == Err::<
                    Seq<(Seq<char>, Seq<scraper::ElementRef<'a>>)>,
                    ErrorView,
                >(error@),
            },
    {
        let recomm = Self::get_recommendation_themes(html)?;
        let selector = BsxTitleData::div_bsx_selector()?;
        let mut entries: Vec<(String, Vec<scraper::ElementRef<'a>>)> = Vec::new();
        let mut i: usize = 0;
        while i < recomm.entries.len()
            invariant
                i <= recomm.entries@.len(),
                selector == crate::dom::selector_of(r#"div[class="bsx"]"#@),
                entries@.len() == i,
                forall|k: int|
                    0 <= k < i ==> (#[trigger] entries@[k]).0@ == recomm.entries@[k].0@
                        && entries@[k].1@ == matches_of(
                        recomm.entries@[k].1,
                        r#"div[class="bsx"]"#@,
                    ),
            decreases recomm.entries@.len() - i,
        {
            let key = recomm.entries[i].0.clone();
            let cards = select_within(&recomm.entries[i].1, &selector);
            entries.push((key, cards));
            i = i + 1;
        }
        let data = CategoryMap { entries };
        proof {
            let themes = recomm.model();
            let expected = themes.map_values(
                |t: (Seq<char>, scraper::ElementRef<'a>)|
                    (t.0, matches_of(t.1, r#"div[class="bsx"]"#@)),
            );
            assert(list_entries(data.entries@) =~= expected);
            assert forall|a: int, b: int| 0 <= a < b < data.model().len() implies (
            #[trigger] data.model()[a]).0 != (#[trigger] data.model()[b]).0 by {
                assert(themes[a].0 != themes[b].0);
            }
        }
        Ok(data)
    }

    /// The selector of a latest-update block.
    pub fn div_utao_selector() -> (r: RawKumaResult<scraper::Selector>)
        ensures
            compiled(r, r#"div[class="utao"]"#@),
    {
        compile(r#"div[class="utao"]"#)
    }

    /// The latest-update blocks of the page, in document order.
    pub fn get_utao_divs(html: &'a scraper::Html) -> (r: RawKumaResult<
        Vec<scraper::ElementRef<'a>>,
    >)
        ensures
            elements_result(r) == utao_of(html),
    {
        let content = get_content_element(html)?;
        select_all(&content, r#"div[class="utao"]"#)
    }

    /// The series that are popular today, in document order. A card that
    /// does not read as a series is skipped.
    pub fn get_popular_today(&self) -> (result: Vec<BsxTitleData>)
        ensures
            views(result@) == successes(
                self.popular_today@.map_values(
                    |e: scraper::ElementRef<'a>| BsxTitleData::extracted(e),
                ),
            ),
    {
        match BsxTitleData::from_vec_element(&self.popular_today) {
            Ok(result) => result,
            Err(_) => Vec::new(),
        }
    }

    /// The recommended series of each category, in document order. A card
    /// that does not read as a series is skipped; no label comes twice.
    pub fn get_recommandation(&self) -> (result: CategoryMap<Vec<BsxTitleData>>)
        ensures
            deep_entries(result.entries@) == upserted_all(
                recommendations_read(self.recommandation.entries@),
            ),
            result.well_formed(),
    {
        let ghost read = recommendations_read(self.recommandation.entries@);
        let mut result: CategoryMap<Vec<BsxTitleData>> = CategoryMap::new();
        let mut i: usize = 0;
        proof {
            assert(result.entries@.len() == result.model().len());
            assert(read.take(0).len() == 0);
            assert(deep_entries(result.entries@) =~= upserted_all(read.take(0)));
        }
        while i < self.recommandation.entries.len()
            invariant
                i <= self.recommandation.entries@.len(),
                read == recommendations_read(self.recommandation.entries@),
                result.well_formed(),
                deep_entries(result.entries@) == upserted_all(read.take(i as int)),
            decreases self.recommandation.entries@.len() - i,
        {
            let key = self.recommandation.entries[i].0.clone();
            let cards = match BsxTitleData::from_vec_element(&self.recommandation.entries[i].1) {
                Ok(cards) => cards,
                Err(_) => Vec::new(),
            };
            let ghost before = result.model();
            let ghost deep = |v: Vec<BsxTitleData>| views(v@);
            proof {
                assert(read.take(i + 1).drop_last() =~= read.take(i as int));
                assert(read.take(i + 1).last() == (key@, views(cards@)));
                lemma_upserted_values(before, key@, cards, deep);
                assert(before.map_values(|e: (Seq<char>, Vec<BsxTitleData>)| (e.0, deep(e.1)))
                    =~= deep_entries(result.entries@));
            }
            result.insert(key, cards);
            proof {
                assert(result.model().map_values(
                    |e: (Seq<char>, Vec<BsxTitleData>)| (e.0, deep(e.1)),
                ) =~= deep_entries(result.entries@));
            }
            i = i + 1;
        }
        proof {
            assert(read.take(i as int) =~= read);
        }
        result
    }

    /// The latest updates, in document order. A block that does not read
    /// as an update is skipped.
    pub fn get_latest(&self) -> (result: Vec<UtaoTitleData>)
        ensures
            views(result@) == successes(
                self.utao_elements@.map_values(
                    |e: scraper::ElementRef<'a>| UtaoTitleData::extracted(e),
                ),
            ),
    {
        match UtaoTitleData::from_vec_element(&self.utao_elements) {
            Ok(result) => result,
            Err(_) => Vec::new(),
        }
    }
}

} // verus!
