//! The search result page.

use vstd::prelude::*;
use crate::error::{BuilderError, BuilderErrorView, ErrorView, RawKumaResult, finished};
use crate::types::{FromHtmlParser, views, successes};
use crate::types::bsx::{BsxTitleData, BsxTitleDataView, cards_of};
use crate::dom::lookup_all;
use crate::parser::search::RawKumaSearchParser;
use crate::types::FromElementRef;

verus! {

/// What a search found.
#[derive(Clone, Debug)]
pub struct RawKumaSearch {
    /// The series found, in document order; empty where nothing matched.
    pub result: Vec<BsxTitleData>,
}

/// Mathematical model of a [`RawKumaSearch`].
pub struct RawKumaSearchView {
    pub result: Seq<BsxTitleDataView>,
}

impl View for RawKumaSearch {
    type V = RawKumaSearchView;

    open spec fn view(&self) -> RawKumaSearchView {
        RawKumaSearchView {
            result: views(self.result@),
        }
    }
}

/// Collects the fields of a [`RawKumaSearch`] one by one; `build` yields the record
/// once every field has been set.
#[derive(Clone, Debug)]
pub struct RawKumaSearchBuilder {
    pub result: Option<Vec<BsxTitleData>>,
}

impl Default for RawKumaSearchBuilder {
    fn default() -> (b: RawKumaSearchBuilder)
        ensures
            b.result is None,
    {
        RawKumaSearchBuilder {
            result: None,
        }
    }
}

impl RawKumaSearchBuilder {
    /// The name of the first field, in the order of the record, that has
    /// not been set.
    pub open spec fn missing(&self) -> Option<Seq<char>> {
        if self.result is None {
            Some("result"@)
        } else {
            None
        }
    }

    /// The record that the fields make up, once none is missing.
    pub open spec fn complete(&self) -> RawKumaSearch {
        RawKumaSearch {
            result: self.result->Some_0,
        }
    }

    /// Sets `result`.
    pub fn result(self, value: Vec<BsxTitleData>) -> (b: RawKumaSearchBuilder)
        ensures
            b == (RawKumaSearchBuilder {
                result: Some(value),
            }),
    {
        RawKumaSearchBuilder {
            result: Some(value),
        }
    }

    /// Yields the record, or names the first field that was never set.
    pub fn build(self) -> (r: Result<RawKumaSearch, BuilderError>)
        ensures
            match self.missing() {
                Some(field) => r is Err && r->Err_0@ == BuilderErrorView::UninitializedField(field),
                None => r == Ok::<RawKumaSearch, BuilderError>(self.complete()),
            },
    {
        let result = match self.result {
            Some(value) => value,
            None => return Err(BuilderError::UninitializedField(String::from_str("result"))),
        };
        Ok(RawKumaSearch { result })
    }
}

impl<'a> FromHtmlParser<'a, RawKumaSearchParser<'a>> for RawKumaSearch {
    open spec fn assembled(parser: RawKumaSearchParser<'a>) -> Result<RawKumaSearchView, ErrorView> {
        match cards_of(parser.content) {
            Err(error) => Err(error),
            Ok(result) => Ok(RawKumaSearchView { result }),
        }
    }

    fn from(parser: RawKumaSearchParser<'a>) -> (r: RawKumaResult<RawKumaSearch>) {
        let result = parser.get_bsx_results()?;
        finished(RawKumaSearchBuilder::default().result(result).build())
    }
}

/// A page on which no card matches is no failure: its result is the empty
/// list.
pub proof fn lemma_empty_search<'a>(parser: RawKumaSearchParser<'a>)
    requires
        lookup_all(parser.content, r#"div[class="bsx"]"#@) == Ok::<
            Seq<scraper::ElementRef<'a>>,
            ErrorView,
        >(Seq::empty()),
    ensures
        RawKumaSearch::assembled(parser) == Ok::<RawKumaSearchView, ErrorView>(
            RawKumaSearchView { result: Seq::empty() },
        ),
{
    reveal(Seq::filter);
    let outcomes = Seq::<scraper::ElementRef<'a>>::empty().map_values(
        |e: scraper::ElementRef<'a>| BsxTitleData::extracted(e),
    );
    assert(outcomes =~= Seq::empty());
    assert(successes(outcomes) =~= Seq::empty());
}

} // verus!
