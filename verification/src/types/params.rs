//! Query parameters of the listing pages.

use vstd::prelude::*;
use crate::enums::manga::{Genre, Order, Status, Type};
use crate::text::{number_text, number_to_text};
use crate::types::ToUrlParam;

verus! {

/// The parameters of a request for the home page.
#[derive(Clone, Debug)]
pub struct HomeParameters {
    pub page: u32,
}

impl Default for HomeParameters {
    fn default() -> (r: HomeParameters)
        ensures
            r.page == 1,
    {
        HomeParameters { page: 1 }
    }
}

impl ToUrlParam for HomeParameters {
    open spec fn url_params(&self) -> Seq<(Seq<char>, Seq<char>)> {
        seq![("page"@, number_text(self.page as nat))]
    }

    fn to_url_param(&self) -> (pairs: Vec<(String, String)>) {
        let mut pairs: Vec<(String, String)> = Vec::new();
        pairs.push((String::from_str("page"), number_to_text(self.page as u64)));
        pairs
    }
}

/// The parameters of a request for the series listing.
#[derive(Clone, Debug)]
pub struct MangaListParameter {
    pub page: u32,
    pub status: Status,
    pub genre: Vec<Genre>,
    pub order: Order,
    pub type_: Type,
}

impl Default for MangaListParameter {
    fn default() -> (r: MangaListParameter)
        ensures
            r.page == 1,
            r.status == Status::All,
            r.genre@.len() == 0,
            r.order == Order::Default,
            r.type_ == Type::All,
    {
        MangaListParameter {
            page: 1,
            status: Status::All,
            genre: Vec::new(),
            order: Order::Default,
            type_: Type::All,
        }
    }
}

/// One `genre[]` parameter for each genre, in order.
pub open spec fn genre_params(genres: Seq<Genre>) -> Seq<(Seq<char>, Seq<char>)> {
    genres.map_values(|g: Genre| ("genre[]"@, g.keyword()))
}

impl ToUrlParam for MangaListParameter {
    open spec fn url_params(&self) -> Seq<(Seq<char>, Seq<char>)> {
        seq![("page"@, number_text(self.page as nat)), ("status"@, self.status.keyword())]
            + genre_params(self.genre@) + seq![
            ("order"@, self.order.keyword()),
            ("type"@, self.type_.keyword()),
        ]
    }

    fn to_url_param(&self) -> (pairs: Vec<(String, String)>) {
        let mut pairs: Vec<(String, String)> = Vec::new();
        pairs.push((String::from_str("page"), number_to_text(self.page as u64)));
        pairs.push((String::from_str("status"), String::from_str(self.status.as_str())));
        let ghost head = seq![
            ("page"@, number_text(self.page as nat)),
            ("status"@, self.status.keyword()),
        ];
        let mut i: usize = 0;
        while i < self.genre.len()
            invariant
                i <= self.genre@.len(),
                head.len() == 2,
                pairs@.len() == 2 + i,
                forall|k: int|
                    0 <= k < 2 ==> (#[trigger] pairs@[k]).0@ == head[k].0 && pairs@[k].1@
                        == head[k].1,
                forall|k: int|
                    0 <= k < i ==> (#[trigger] pairs@[2 + k]).0@ == "genre[]"@ && pairs@[2
                        + k].1@ == self.genre@[k].keyword(),
            decreases self.genre@.len() - i,
        {
            pairs.push((String::from_str("genre[]"), String::from_str(self.genre[i].as_str())));
            i = i + 1;
        }
        pairs.push((String::from_str("order"), String::from_str(self.order.as_str())));
        pairs.push((String::from_str("type"), String::from_str(self.type_.as_str())));
        proof {
            let n = self.genre@.len() as int;
            let expected = self.url_params();
            assert(expected.len() == n + 4);
            assert forall|k: int| 0 <= k < pairs@.len() implies (#[trigger] pairs@[k]).0@
                == expected[k].0 && pairs@[k].1@ == expected[k].1 by {
                if k < 2 {
                    assert(expected[k] == head[k]);
                } else if k < 2 + n {
                    assert(pairs@[k] == pairs@[2 + (k - 2)]);
                    assert(expected[k] == genre_params(self.genre@)[k - 2]);
                } else {
                }
            }
        }
        pairs
    }
}

} // verus!
