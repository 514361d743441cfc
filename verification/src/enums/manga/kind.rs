//! The kind of publication by which a listing is filtered.

use vstd::prelude::*;
use vstd::std_specs::convert::FromSpecImpl;
use crate::text::{fingerprint, same_text};

verus! {

/// The kind of publication by which a listing is filtered.
#[derive(Clone, Copy, Debug, PartialEq, Eq, Structural)]
pub enum Type {
    All,
    Manga,
    Manhwa,
    Manhua,
    Comic,
    Novel,
}

impl Type {
    /// The keyword that the site's query string uses for this kind.
    pub open spec fn keyword(self) -> Seq<char> {
        match self {
            Type::All => ""@,
            Type::Manga => "manga"@,
            Type::Manhwa => "manhwa"@,
            Type::Manhua => "manhua"@,
            Type::Comic => "comic"@,
            Type::Novel => "novel"@,
        }
    }

    /// The kind that a keyword stands for; an unknown keyword stands for
    /// `All`.
    pub open spec fn of_keyword(value: Seq<char>) -> Type {
        if value == "manga"@ {
            Type::Manga
        } else if value == "manhwa"@ {
            Type::Manhwa
        } else if value == "manhua"@ {
            Type::Manhua
        } else if value == "comic"@ {
            Type::Comic
        } else if value == "novel"@ {
            Type::Novel
        } else {
            Type::All
        }
    }

    /// The keyword of this kind.
    pub fn as_str<'a>(&self) -> (s: &'a str)
        ensures
            s@ == self.keyword(),
    {
        match self {
            Type::All => "",
            Type::Manga => "manga",
            Type::Manhwa => "manhwa",
            Type::Manhua => "manhua",
            Type::Comic => "comic",
            Type::Novel => "novel",
        }
    }

    /// Reads a keyword; whatever is not a known keyword reads as `All`.
    pub fn from_keyword(value: &str) -> (r: Type)
        ensures
            r == Type::of_keyword(value@),
    {
        if same_text(value, "manga") {
            Type::Manga
        } else if same_text(value, "manhwa") {
            Type::Manhwa
        } else if same_text(value, "manhua") {
            Type::Manhua
        } else if same_text(value, "comic") {
            Type::Comic
        } else if same_text(value, "novel") {
            Type::Novel
        } else {
            Type::All
        }
    }
}

impl<'a> From<&'a str> for Type {
    fn from(value: &'a str) -> (r: Type) {
        Type::from_keyword(value)
    }
}

impl<'a> FromSpecImpl<&'a str> for Type {
    open spec fn obeys_from_spec() -> bool {
        true
    }

    open spec fn from_spec(value: &'a str) -> Type {
        Type::of_keyword(value@)
    }
}

impl Default for Type {
    fn default() -> (r: Type)
        ensures
            r == Type::All,
    {
        Type::All
    }
}

/// Reading the keyword of a kind gives that kind back.
pub proof fn lemma_kind_keyword_round_trip(x: Type)
    ensures
        Type::of_keyword(x.keyword()) == x,
{
    reveal_strlit("");
    assert(fingerprint(""@) == (0nat, ' ', ' ', ' ', ' ', ' ', ' '));
    reveal_strlit("comic");
    assert(fingerprint("comic"@) == (5nat, 'c', 'o', 'm', 'i', 'c', 'c'));
    reveal_strlit("manga");
    assert(fingerprint("manga"@) == (5nat, 'm', 'a', 'n', 'g', 'a', 'a'));
    reveal_strlit("manhua");
    assert(fingerprint("manhua"@) == (6nat, 'm', 'a', 'n', 'h', 'u', 'a'));
    reveal_strlit("manhwa");
    assert(fingerprint("manhwa"@) == (6nat, 'm', 'a', 'n', 'h', 'w', 'a'));
    reveal_strlit("novel");
    assert(fingerprint("novel"@) == (5nat, 'n', 'o', 'v', 'e', 'l', 'l'));
}

} // verus!
