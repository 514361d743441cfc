//! The publication status by which a listing is filtered.

use vstd::prelude::*;
use vstd::std_specs::convert::FromSpecImpl;
use crate::text::{fingerprint, same_text};

verus! {

/// The publication status by which a listing is filtered.
#[derive(Clone, Copy, Debug, PartialEq, Eq, Structural)]
pub enum Status {
    All,
    Ongoing,
    Completed,
    Hiatus,
}

impl Status {
    /// The keyword that the site's query string uses for this status.
    pub open spec fn keyword(self) -> Seq<char> {
        match self {
            Status::All => ""@,
            Status::Ongoing => "ongoing"@,
            Status::Completed => "completed"@,
            Status::Hiatus => "hiatus"@,
        }
    }

    /// The status that a keyword stands for; an unknown keyword stands for
    /// `All`.
    pub open spec fn of_keyword(value: Seq<char>) -> Status {
        if value == "ongoing"@ {
            Status::Ongoing
        } else if value == "completed"@ {
            Status::Completed
        } else if value == "hiatus"@ {
            Status::Hiatus
        } else {
            Status::All
        }
    }

    /// The keyword of this status.
    pub fn as_str<'a>(&self) -> (s: &'a str)
        ensures
            s@ == self.keyword(),
    {
        match self {
            Status::All => "",
            Status::Ongoing => "ongoing",
            Status::Completed => "completed",
            Status::Hiatus => "hiatus",
        }
    }

    /// Reads a keyword; whatever is not a known keyword reads as `All`.
    pub fn from_keyword(value: &str) -> (r: Status)
        ensures
            r == Status::of_keyword(value@),
    {
        if same_text(value, "ongoing") {
            Status::Ongoing
        } else if same_text(value, "completed") {
            Status::Completed
        } else if same_text(value, "hiatus") {
            Status::Hiatus
        } else {
            Status::All
        }
    }
}

impl<'a> From<&'a str> for Status {
    fn from(value: &'a str) -> (r: Status) {
        Status::from_keyword(value)
    }
}

impl<'a> FromSpecImpl<&'a str> for Status {
    open spec fn obeys_from_spec() -> bool {
        true
    }

    open spec fn from_spec(value: &'a str) -> Status {
        Status::of_keyword(value@)
    }
}

impl Default for Status {
    fn default() -> (r: Status)
        ensures
            r == Status::All,
    {
        Status::All
    }
}

/// Reading the keyword of a status gives that status back.
pub proof fn lemma_status_keyword_round_trip(x: Status)
    ensures
        Status::of_keyword(x.keyword()) == x,
{
    reveal_strlit("");
    assert(fingerprint(""@) == (0nat, ' ', ' ', ' ', ' ', ' ', ' '));
    reveal_strlit("completed");
    assert(fingerprint("completed"@) == (9nat, 'c', 'o', 'm', 'p', 'l', 'd'));
    reveal_strlit("hiatus");
    assert(fingerprint("hiatus"@) == (6nat, 'h', 'i', 'a', 't', 'u', 's'));
    reveal_strlit("ongoing");
    assert(fingerprint("ongoing"@) == (7nat, 'o', 'n', 'g', 'o', 'i', 'g'));
}

} // verus!
