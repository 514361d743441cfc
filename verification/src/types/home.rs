//! The home page.

use vstd::prelude::*;
use crate::error::{BuilderError, BuilderErrorView, ErrorView, RawKumaResult, finished};
use crate::parser::home::{RawKumaHomeParser, recommendations_read};
use crate::types::{FromElementRef, FromHtmlParser, views, successes};
use crate::types::bsx::{BsxTitleData, BsxTitleDataView};
use crate::types::categories::{
    CategoryMap, deep_entries, keys_unique, lemma_upserted_all_unique, upserted_all,
};
use crate::types::utao::{UtaoTitleData, UtaoTitleDataView};

verus! {

/// The digest of the home page.
#[derive(Clone, Debug)]
pub struct RawKumaHomeData {
    /// The series that are popular today, in document order.
    pub popular_title: Vec<BsxTitleData>,
    /// The recommended series of each category, keyed by the label of the category.
    pub recommandation: CategoryMap<Vec<BsxTitleData>>,
    /// The latest updates, in document order.
    pub latest_update: Vec<UtaoTitleData>,
}

/// Mathematical model of a [`RawKumaHomeData`].
pub struct RawKumaHomeDataView {
    pub popular_title: Seq<BsxTitleDataView>,
    pub recommandation: Seq<(Seq<char>, Seq<BsxTitleDataView>)>,
    pub latest_update: Seq<UtaoTitleDataView>,
}

impl View for RawKumaHomeData {
    type V = RawKumaHomeDataView;

    open spec fn view(&self) -> RawKumaHomeDataView {
        RawKumaHomeDataView {
            popular_title: views(self.popular_title@),
            recommandation: deep_entries(self.recommandation.entries@),
            latest_update: views(self.latest_update@),
        }
    }
}

/// Collects the fields of a [`RawKumaHomeData`] one by one; `build` yields the record
/// once every field has been set.
#[derive(Clone, Debug)]
pub struct RawKumaHomeDataBuilder {
    pub popular_title: Option<Vec<BsxTitleData>>,
    pub recommandation: Option<CategoryMap<Vec<BsxTitleData>>>,
    pub latest_update: Option<Vec<UtaoTitleData>>,
}

impl Default for RawKumaHomeDataBuilder {
    fn default() -> (b: RawKumaHomeDataBuilder)
        ensures
            b.popular_title is None,
            b.recommandation is None,
            b.latest_update is None,
    {
        RawKumaHomeDataBuilder {
            popular_title: None,
            recommandation: None,
            latest_update: None,
        }
    }
}

impl RawKumaHomeDataBuilder {
    /// The name of the first field, in the order of the record, that has
    /// not been set.
    pub open spec fn missing(&self) -> Option<Seq<char>> {
        if self.popular_title is None {
            Some("popular_title"@)
        } else if self.recommandation is None {
            Some("recommandation"@)
        } else if self.latest_update is None {
            Some("latest_update"@)
        } else {
            None
        }
    }

    /// The record that the fields make up, once none is missing.
    pub open spec fn complete(&self) -> RawKumaHomeData {
        RawKumaHomeData {
            popular_title: self.popular_title->Some_0,
            recommandation: self.recommandation->Some_0,
            latest_update: self.latest_update->Some_0,
        }
    }

    /// Sets `popular_title`.
    pub fn popular_title(self, value: Vec<BsxTitleData>) -> (b: RawKumaHomeDataBuilder)
        ensures
            b == (RawKumaHomeDataBuilder {
                popular_title: Some(value),
                recommandation: self.recommandation,
                latest_update: self.latest_update,
            }),
    {
        RawKumaHomeDataBuilder {
            popular_title: Some(value),
            recommandation: self.recommandation,
            latest_update: self.latest_update,
        }
    }

    /// Sets `recommandation`.
    pub fn recommandation(self, value: CategoryMap<Vec<BsxTitleData>>) -> (b: RawKumaHomeDataBuilder)
        ensures
            b == (RawKumaHomeDataBuilder {
                popular_title: self.popular_title,
                recommandation: Some(value),
                latest_update: self.latest_update,
            }),
    {
        RawKumaHomeDataBuilder {
            popular_title: self.popular_title,
            recommandation: Some(value),
            latest_update: self.latest_update,
        }
    }

    /// Sets `latest_update`.
    pub fn latest_update(self, value: Vec<UtaoTitleData>) -> (b: RawKumaHomeDataBuilder)
        ensures
            b == (RawKumaHomeDataBuilder {
                popular_title: self.popular_title,
                recommandation: self.recommandation,
                latest_update: Some(value),
            }),
    {
        RawKumaHomeDataBuilder {
            popular_title: self.popular_title,
            recommandation: self.recommandation,
            latest_update: Some(value),
        }
    }

    /// Yields the record, or names the first field that was never set.
    pub fn build(self) -> (r: Result<RawKumaHomeData, BuilderError>)
        ensures
            match self.missing() {
                Some(field) => r is Err && r->Err_0@ == BuilderErrorView::UninitializedField(field),
                None => r == Ok::<RawKumaHomeData, BuilderError>(self.complete()),
            },
    {
        let popular_title = match self.popular_title {
            Some(value) => value,
            None => return Err(BuilderError::UninitializedField(String::from_str("popular_title"))),
        };
        let recommandation = match self.recommandation {
            Some(value) => value,
            None => return Err(BuilderError::UninitializedField(String::from_str("recommandation"))),
        };
        let latest_update = match self.latest_update {
            Some(value) => value,
            None => return Err(BuilderError::UninitializedField(String::from_str("latest_update"))),
        };
        Ok(RawKumaHomeData { popular_title, recommandation, latest_update })
    }
}

impl<'a> FromHtmlParser<'a, RawKumaHomeParser<'a>> for RawKumaHomeData {
    open spec fn assembled(parser: RawKumaHomeParser<'a>) -> Result<RawKumaHomeDataView, ErrorView> {
        Ok(
            RawKumaHomeDataView {
                popular_title: successes(
                    parser.popular_today@.map_values(
                        |e: scraper::ElementRef<'a>| BsxTitleData::extracted(e),
                    ),
                ),
                recommandation: upserted_all(
                    recommendations_read(parser.recommandation.entries@),
                ),
                latest_update: successes(
                    parser.utao_elements@.map_values(
                        |e: scraper::ElementRef<'a>| UtaoTitleData::extracted(e),
                    ),
                ),
            },
        )
    }

    fn from(home: RawKumaHomeParser<'a>) -> (r: RawKumaResult<RawKumaHomeData>) {
        let popular_title = home.get_popular_today();
        let recommandation = home.get_recommandation();
        let latest_update = home.get_latest();
        finished(
            RawKumaHomeDataBuilder::default().popular_title(popular_title).recommandation(
                recommandation,
            ).latest_update(latest_update).build(),
        )
    }
}

/// The home page always assembles, and in its digest no category comes
/// twice.
pub proof fn lemma_home_categories_unique<'a>(parser: RawKumaHomeParser<'a>)
    ensures
        RawKumaHomeData::assembled(parser) is Ok,
        keys_unique(RawKumaHomeData::assembled(parser)->Ok_0.recommandation),
{
    lemma_upserted_all_unique(recommendations_read(parser.recommandation.entries@));
}

} // verus!
