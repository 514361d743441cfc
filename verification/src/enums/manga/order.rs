//! The order in which a listing is sorted.

use vstd::prelude::*;
use vstd::std_specs::convert::FromSpecImpl;
use crate::text::{fingerprint, same_text};

verus! {

/// The order in which a listing is sorted.
#[derive(Clone, Copy, Debug, PartialEq, Eq, Structural)]
pub enum Order {
    Default,
    AZ,
    ZA,
    Update,
    Added,
    Popular,
}

impl Order {
    /// The keyword that the site's query string uses for this order.
    pub open spec fn keyword(self) -> Seq<char> {
        match self {
            Order::Default => ""@,
            Order::AZ => "title"@,
            Order::ZA => "titlereverse"@,
            Order::Update => "update"@,
            Order::Added => "latest"@,
            Order::Popular => "popular"@,
        }
    }

    /// The order that a keyword stands for; an unknown keyword stands for
    /// `Default`.
    pub open spec fn of_keyword(value: Seq<char>) -> Order {
        if value == "title"@ {
            Order::AZ
        } else if value == "titlereverse"@ {
            Order::ZA
        } else if value == "update"@ {
            Order::Update
        } else if value == "latest"@ {
            Order::Added
        } else if value == "popular"@ {
            Order::Popular
        } else {
            Order::Default
        }
    }

    /// The keyword of this order.
    pub fn as_str<'a>(&self) -> (s: &'a str)
        ensures
            s@ == self.keyword(),
    {
        match self {
            Order::Default => "",
            Order::AZ => "title",
            Order::ZA => "titlereverse",
            Order::Update => "update",
            Order::Added => "latest",
            Order::Popular => "popular",
        }
    }

    /// Reads a keyword; whatever is not a known keyword reads as `Default`.
    pub fn from_keyword(value: &str) -> (r: Order)
        ensures
            r == Order::of_keyword(value@),
    {
        if same_text(value, "title") {
            Order::AZ
        } else if same_text(value, "titlereverse") {
            Order::ZA
        } else if same_text(value, "update") {
            Order::Update
        } else if same_text(value, "latest") {
            Order::Added
        } else if same_text(value, "popular") {
            Order::Popular
        } else {
            Order::Default
        }
    }
}

impl<'a> From<&'a str> for Order {
    fn from(value: &'a str) -> (r: Order) {
        Order::from_keyword(value)
    }
}

impl<'a> FromSpecImpl<&'a str> for Order {
    open spec fn obeys_from_spec() -> bool {
        true
    }

    open spec fn from_spec(value: &'a str) -> Order {
        Order::of_keyword(value@)
    }
}

impl Default for Order {
    fn default() -> (r: Order)
        ensures
            r == Order::Default,
    {
        Order::Default
    }
}

/// Reading the keyword of a order gives that order back.
pub proof fn lemma_order_keyword_round_trip(x: Order)
    ensures
        Order::of_keyword(x.keyword()) == x,
{
    reveal_strlit("");
    assert(fingerprint(""@) == (0nat, ' ', ' ', ' ', ' ', ' ', ' '));
    reveal_strlit("latest");
    assert(fingerprint("latest"@) == (6nat, 'l', 'a', 't', 'e', 's', 't'));
    reveal_strlit("popular");
    assert(fingerprint("popular"@) == (7nat, 'p', 'o', 'p', 'u', 'l', 'r'));
    reveal_strlit("title");
    assert(fingerprint("title"@) == (5nat, 't', 'i', 't', 'l', 'e', 'e'));
    reveal_strlit("titlereverse");
    assert(fingerprint("titlereverse"@) == (12nat, 't', 'i', 't', 'l', 'e', 'e'));
    reveal_strlit("update");
    assert(fingerprint("update"@) == (6nat, 'u', 'p', 'd', 'a', 't', 'e'));
}

} // verus!
