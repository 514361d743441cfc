//! A genre by which the site files its series.

use vstd::prelude::*;
use vstd::std_specs::convert::FromSpecImpl;
use crate::text::{fingerprint, same_text};

verus! {

/// A genre by which the site files its series.
#[derive(Clone, Copy, Debug, PartialEq, Eq, Structural)]
pub enum Genre {
    All,
    Action,
    Adult,
    Adventure,
    AlternativeWorld,
    Comedy,
    Drama,
    Ecchi,
    Elves,
    English,
    Fantasy,
    Food,
    Game,
    GenderBender,
    Harem,
    Historical,
    Horror,
    Isekai,
    Josei,
    Lolicon,
    Magic,
    MartialArts,
    Mature,
    Mecha,
    Medical,
    Mystery,
    NA,
    Oneshot,
    Psychological,
    Romance,
    SchoolLife,
    SciFi,
    Seinen,
    Shotacon,
    Shoujo,
    ShoujoAi,
    Shounen,
    ShounenAi,
    SliceOfLife,
    Smut,
    Sports,
    Supernatural,
    Tragedy,
    Updating,
    War,
    Yaoi,
    Yuri,
}

impl Genre {
    /// The keyword that the site's query string uses for this genre.
    pub open spec fn keyword(self) -> Seq<char> {
        match self {
            Genre::All => ""@,
            Genre::Action => "action"@,
            Genre::Adult => "adult"@,
            Genre::Adventure => "adventure"@,
            Genre::AlternativeWorld => "alternative-world"@,
            Genre::Comedy => "comedy"@,
            Genre::Drama => "drama"@,
            Genre::Ecchi => "ecchi"@,
            Genre::Elves => "elves"@,
            Genre::English => "english"@,
            Genre::Fantasy => "fantasy"@,
            Genre::Food => "food"@,
            Genre::Game => "game"@,
            Genre::GenderBender => "gender-bende"@,
            Genre::Harem => "harem"@,
            Genre::Historical => "historical"@,
            Genre::Horror => "horror"@,
            Genre::Isekai => "isekai"@,
            Genre::Josei => "josei"@,
            Genre::Lolicon => "lolicon"@,
            Genre::Magic => "magic"@,
            Genre::MartialArts => "martial-arts"@,
            Genre::Mature => "mature"@,
            Genre::Mecha => "mecha"@,
            Genre::Medical => "medical"@,
            Genre::Mystery => "mystery"@,
            Genre::NA => "n-a"@,
            Genre::Oneshot => "oneshot"@,
            Genre::Psychological => "psychological"@,
            Genre::Romance => "romance"@,
            Genre::SchoolLife => "school-life"@,
            Genre::SciFi => "sci-fi"@,
            Genre::Seinen => "seinen"@,
            Genre::Shotacon => "shotacon"@,
            Genre::Shoujo => "shoujo"@,
            Genre::ShoujoAi => "shoujo-ai"@,
            Genre::Shounen => "shounen"@,
            Genre::ShounenAi => "shounen-ai"@,
            Genre::SliceOfLife => "slice-of-life"@,
            Genre::Smut => "smut"@,
            Genre::Sports => "sports"@,
            Genre::Supernatural => "supernatural"@,
            Genre::Tragedy => "tragedy"@,
            Genre::Updating => "updating"@,
            Genre::War => "war"@,
            Genre::Yaoi => "yaoi"@,
            Genre::Yuri => "yuri"@,
        }
    }

    /// The genre that a keyword stands for; an unknown keyword stands for
    /// `All`.
    pub open spec fn of_keyword(value: Seq<char>) -> Genre {
        if value == "adult"@ {
            Genre::Adult
        } else if value == "action"@ {
            Genre::Action
        } else if value == "adventure"@ {
            Genre::Adventure
        } else if value == "alternative-world"@ {
            Genre::AlternativeWorld
        } else if value == "comedy"@ {
            Genre::Comedy
        } else if value == "drama"@ {
            Genre::Drama
        } else if value == "ecchi"@ {
            Genre::Ecchi
        } else if value == "elves"@ {
            Genre::Elves
        } else if value == "english"@ {
            Genre::English
        } else if value == "fantasy"@ {
            Genre::Fantasy
        } else if value == "food"@ {
            Genre::Food
        } else if value == "game"@ {
            Genre::Game
        } else if value == "gender-bende"@ {
            Genre::GenderBender
        } else if value == "harem"@ {
            Genre::Harem
        } else if value == "historical"@ {
            Genre::Historical
        } else if value == "horror"@ {
            Genre::Horror
        } else if value == "isekai"@ {
            Genre::Isekai
        } else if value == "josei"@ {
            Genre::Josei
        } else if value == "lolicon"@ {
            Genre::Lolicon
        } else if value == "magic"@ {
            Genre::Magic
        } else if value == "martial-arts"@ {
            Genre::MartialArts
        } else if value == "mature"@ {
            Genre::Mature
        } else if value == "mecha"@ {
            Genre::Mecha
        } else if value == "medical"@ {
            Genre::Medical
        } else if value == "mystery"@ {
            Genre::Mystery
        } else if value == "n-a"@ {
            Genre::NA
        } else if value == "oneshot"@ {
            Genre::Oneshot
        } else if value == "psychological"@ {
            Genre::Psychological
        } else if value == "romance"@ {
            Genre::Romance
        } else if value == "school-life"@ {
            Genre::SchoolLife
        } else if value == "sci-fi"@ {
            Genre::SciFi
        } else if value == "seinen"@ {
            Genre::Seinen
        } else if value == "shotacon"@ {
            Genre::Shotacon
        } else if value == "shoujo"@ {
            Genre::Shoujo
        } else if value == "shoujo-ai"@ {
            Genre::ShoujoAi
        } else if value == "shounen"@ {
            Genre::Shounen
        } else if value == "shounen-ai"@ {
            Genre::ShounenAi
        } else if value == "slice-of-life"@ {
            Genre::SliceOfLife
        } else if value == "smut"@ {
            Genre::Smut
        } else if value == "sports"@ {
            Genre::Sports
        } else if value == "supernatural"@ {
            Genre::Supernatural
        } else if value == "tragedy"@ {
            Genre::Tragedy
        } else if value == "updating"@ {
            Genre::Updating
        } else if value == "war"@ {
            Genre::War
        } else if value == "yaoi"@ {
            Genre::Yaoi
        } else if value == "yuri"@ {
            Genre::Yuri
        } else {
            Genre::All
        }
    }

    /// The keyword of this genre.
    pub fn as_str<'a>(&self) -> (s: &'a str)
        ensures
            s@ == self.keyword(),
    {
        match self {
            Genre::All => "",
            Genre::Action => "action",
            Genre::Adult => "adult",
            Genre::Adventure => "adventure",
            Genre::AlternativeWorld => "alternative-world",
            Genre::Comedy => "comedy",
            Genre::Drama => "drama",
            Genre::Ecchi => "ecchi",
            Genre::Elves => "elves",
            Genre::English => "english",
            Genre::Fantasy => "fantasy",
            Genre::Food => "food",
            Genre::Game => "game",
            Genre::GenderBender => "gender-bende",
            Genre::Harem => "harem",
            Genre::Historical => "historical",
            Genre::Horror => "horror",
            Genre::Isekai => "isekai",
            Genre::Josei => "josei",
            Genre::Lolicon => "lolicon",
            Genre::Magic => "magic",
            Genre::MartialArts => "martial-arts",
            Genre::Mature => "mature",
            Genre::Mecha => "mecha",
            Genre::Medical => "medical",
            Genre::Mystery => "mystery",
            Genre::NA => "n-a",
            Genre::Oneshot => "oneshot",
            Genre::Psychological => "psychological",
            Genre::Romance => "romance",
            Genre::SchoolLife => "school-life",
            Genre::SciFi => "sci-fi",
            Genre::Seinen => "seinen",
            Genre::Shotacon => "shotacon",
            Genre::Shoujo => "shoujo",
            Genre::ShoujoAi => "shoujo-ai",
            Genre::Shounen => "shounen",
            Genre::ShounenAi => "shounen-ai",
            Genre::SliceOfLife => "slice-of-life",
            Genre::Smut => "smut",
            Genre::Sports => "sports",
            Genre::Supernatural => "supernatural",
            Genre::Tragedy => "tragedy",
            Genre::Updating => "updating",
            Genre::War => "war",
            Genre::Yaoi => "yaoi",
            Genre::Yuri => "yuri",
        }
    }

    /// Reads a keyword; whatever is not a known keyword reads as `All`.
    pub fn from_keyword(value: &str) -> (r: Genre)
        ensures
            r == Genre::of_keyword(value@),
    {
        if same_text(value, "adult") {
            Genre::Adult
        } else if same_text(value, "action") {
            Genre::Action
        } else if same_text(value, "adventure") {
            Genre::Adventure
        } else if same_text(value, "alternative-world") {
            Genre::AlternativeWorld
        } else if same_text(value, "comedy") {
            Genre::Comedy
        } else if same_text(value, "drama") {
            Genre::Drama
        } else if same_text(value, "ecchi") {
            Genre::Ecchi
        } else if same_text(value, "elves") {
            Genre::Elves
        } else if same_text(value, "english") {
            Genre::English
        } else if same_text(value, "fantasy") {
            Genre::Fantasy
        } else if same_text(value, "food") {
            Genre::Food
        } else if same_text(value, "game") {
            Genre::Game
        } else if same_text(value, "gender-bende") {
            Genre::GenderBender
        } else if same_text(value, "harem") {
            Genre::Harem
        } else if same_text(value, "historical") {
            Genre::Historical
        } else if same_text(value, "horror") {
            Genre::Horror
        } else if same_text(value, "isekai") {
            Genre::Isekai
        } else if same_text(value, "josei") {
            Genre::Josei
        } else if same_text(value, "lolicon") {
            Genre::Lolicon
        } else if same_text(value, "magic") {
            Genre::Magic
        } else if same_text(value, "martial-arts") {
            Genre::MartialArts
        } else if same_text(value, "mature") {
            Genre::Mature
        } else if same_text(value, "mecha") {
            Genre::Mecha
        } else if same_text(value, "medical") {
            Genre::Medical
        } else if same_text(value, "mystery") {
            Genre::Mystery
        } else if same_text(value, "n-a") {
            Genre::NA
        } else if same_text(value, "oneshot") {
            Genre::Oneshot
        } else if same_text(value, "psychological") {
            Genre::Psychological
        } else if same_text(value, "romance") {
            Genre::Romance
        } else if same_text(value, "school-life") {
            Genre::SchoolLife
        } else if same_text(value, "sci-fi") {
            Genre::SciFi
        } else if same_text(value, "seinen") {
            Genre::Seinen
        } else if same_text(value, "shotacon") {
            Genre::Shotacon
        } else if same_text(value, "shoujo") {
            Genre::Shoujo
        } else if same_text(value, "shoujo-ai") {
            Genre::ShoujoAi
        } else if same_text(value, "shounen") {
            Genre::Shounen
        } else if same_text(value, "shounen-ai") {
            Genre::ShounenAi
        } else if same_text(value, "slice-of-life") {
            Genre::SliceOfLife
        } else if same_text(value, "smut") {
            Genre::Smut
        } else if same_text(value, "sports") {
            Genre::Sports
        } else if same_text(value, "supernatural") {
            Genre::Supernatural
        } else if same_text(value, "tragedy") {
            Genre::Tragedy
        } else if same_text(value, "updating") {
            Genre::Updating
        } else if same_text(value, "war") {
            Genre::War
        } else if same_text(value, "yaoi") {
            Genre::Yaoi
        } else if same_text(value, "yuri") {
            Genre::Yuri
        } else {
            Genre::All
        }
    }
}

impl<'a> From<&'a str> for Genre {
    fn from(value: &'a str) -> (r: Genre) {
        Genre::from_keyword(value)
    }
}

impl<'a> FromSpecImpl<&'a str> for Genre {
    open spec fn obeys_from_spec() -> bool {
        true
    }

    open spec fn from_spec(value: &'a str) -> Genre {
        Genre::of_keyword(value@)
    }
}

impl Default for Genre {
    fn default() -> (r: Genre)
        ensures
            r == Genre::All,
    {
        Genre::All
    }
}

/// Reading the keyword of a genre gives that genre back.
pub proof fn lemma_genre_keyword_round_trip(x: Genre)
    ensures
        Genre::of_keyword(x.keyword()) == x,
{
    reveal_strlit("");
    assert(fingerprint(""@) == (0nat, ' ', ' ', ' ', ' ', ' ', ' '));
    reveal_strlit("action");
    assert(fingerprint("action"@) == (6nat, 'a', 'c', 't', 'i', 'o', 'n'));
    reveal_strlit("adult");
    assert(fingerprint("adult"@) == (5nat, 'a', 'd', 'u', 'l', 't', 't'));
    reveal_strlit("adventure");
    assert(fingerprint("adventure"@) == (9nat, 'a', 'd', 'v', 'e', 'n', 'e'));
    reveal_strlit("alternative-world");
    assert(fingerprint("alternative-world"@) == (17nat, 'a', 'l', 't', 'e', 'r', 'd'));
    reveal_strlit("comedy");
    assert(fingerprint("comedy"@) == (6nat, 'c', 'o', 'm', 'e', 'd', 'y'));
    reveal_strlit("drama");
    assert(fingerprint("drama"@) == (5nat, 'd', 'r', 'a', 'm', 'a', 'a'));
    reveal_strlit("ecchi");
    assert(fingerprint("ecchi"@) == (5nat, 'e', 'c', 'c', 'h', 'i', 'i'));
    reveal_strlit("elves");
    assert(fingerprint("elves"@) == (5nat, 'e', 'l', 'v', 'e', 's', 's'));
    reveal_strlit("english");
    assert(fingerprint("english"@) == (7nat, 'e', 'n', 'g', 'l', 'i', 'h'));
    reveal_strlit("fantasy");
    assert(fingerprint("fantasy"@) == (7nat, 'f', 'a', 'n', 't', 'a', 'y'));
    reveal_strlit("food");
    assert(fingerprint("food"@) == (4nat, 'f', 'o', 'o', 'd', ' ', 'd'));
    reveal_strlit("game");
    assert(fingerprint("game"@) == (4nat, 'g', 'a', 'm', 'e', ' ', 'e'));
    reveal_strlit("gender-bende");
    assert(fingerprint("gender-bende"@) == (12nat, 'g', 'e', 'n', 'd', 'e', 'e'));
    reveal_strlit("harem");
    assert(fingerprint("harem"@) == (5nat, 'h', 'a', 'r', 'e', 'm', 'm'));
    reveal_strlit("historical");
    assert(fingerprint("historical"@) == (10nat, 'h', 'i', 's', 't', 'o', 'l'));
    reveal_strlit("horror");
    assert(fingerprint("horror"@) == (6nat, 'h', 'o', 'r', 'r', 'o', 'r'));
    reveal_strlit("isekai");
    assert(fingerprint("isekai"@) == (6nat, 'i', 's', 'e', 'k', 'a', 'i'));
    reveal_strlit("josei");
    assert(fingerprint("josei"@) == (5nat, 'j', 'o', 's', 'e', 'i', 'i'));
    reveal_strlit("lolicon");
    assert(fingerprint("lolicon"@) == (7nat, 'l', 'o', 'l', 'i', 'c', 'n'));
    reveal_strlit("magic");
    assert(fingerprint("magic"@) == (5nat, 'm', 'a', 'g', 'i', 'c', 'c'));
    reveal_strlit("martial-arts");
    assert(fingerprint("martial-arts"@) == (12nat, 'm', 'a', 'r', 't', 'i', 's'));
    reveal_strlit("mature");
    assert(fingerprint("mature"@) == (6nat, 'm', 'a', 't', 'u', 'r', 'e'));
    reveal_strlit("mecha");
    assert(fingerprint("mecha"@) == (5nat, 'm', 'e', 'c', 'h', 'a', 'a'));
    reveal_strlit("medical");
    assert(fingerprint("medical"@) == (7nat, 'm', 'e', 'd', 'i', 'c', 'l'));
    reveal_strlit("mystery");
    assert(fingerprint("mystery"@) == (7nat, 'm', 'y', 's', 't', 'e', 'y'));
    reveal_strlit("n-a");
    assert(fingerprint("n-a"@) == (3nat, 'n', '-', 'a', ' ', ' ', 'a'));
    reveal_strlit("oneshot");
    assert(fingerprint("oneshot"@) == (7nat, 'o', 'n', 'e', 's', 'h', 't'));
    reveal_strlit("psychological");
    assert(fingerprint("psychological"@) == (13nat, 'p', 's', 'y', 'c', 'h', 'l'));
    reveal_strlit("romance");
    assert(fingerprint("romance"@) == (7nat, 'r', 'o', 'm', 'a', 'n', 'e'));
    reveal_strlit("school-life");
    assert(fingerprint("school-life"@) == (11nat, 's', 'c', 'h', 'o', 'o', 'e'));
    reveal_strlit("sci-fi");
    assert(fingerprint("sci-fi"@) == (6nat, 's', 'c', 'i', '-', 'f', 'i'));
    reveal_strlit("seinen");
    assert(fingerprint("seinen"@) == (6nat, 's', 'e', 'i', 'n', 'e', 'n'));
    reveal_strlit("shotacon");
    assert(fingerprint("shotacon"@) == (8nat, 's', 'h', 'o', 't', 'a', 'n'));
    reveal_strlit("shoujo");
    assert(fingerprint("shoujo"@) == (6nat, 's', 'h', 'o', 'u', 'j', 'o'));
    reveal_strlit("shoujo-ai");
    assert(fingerprint("shoujo-ai"@) == (9nat, 's', 'h', 'o', 'u', 'j', 'i'));
    reveal_strlit("shounen");
    assert(fingerprint("shounen"@) == (7nat, 's', 'h', 'o', 'u', 'n', 'n'));
    reveal_strlit("shounen-ai");
    assert(fingerprint("shounen-ai"@) == (10nat, 's', 'h', 'o', 'u', 'n', 'i'));
    reveal_strlit("slice-of-life");
    assert(fingerprint("slice-of-life"@) == (13nat, 's', 'l', 'i', 'c', 'e', 'e'));
    reveal_strlit("smut");
    assert(fingerprint("smut"@) == (4nat, 's', 'm', 'u', 't', ' ', 't'));
    reveal_strlit("sports");
    assert(fingerprint("sports"@) == (6nat, 's', 'p', 'o', 'r', 't', 's'));
    reveal_strlit("supernatural");
    assert(fingerprint("supernatural"@) == (12nat, 's', 'u', 'p', 'e', 'r', 'l'));
    reveal_strlit("tragedy");
    assert(fingerprint("tragedy"@) == (7nat, 't', 'r', 'a', 'g', 'e', 'y'));
    reveal_strlit("updating");
    assert(fingerprint("updating"@) == (8nat, 'u', 'p', 'd', 'a', 't', 'g'));
    reveal_strlit("war");
    assert(fingerprint("war"@) == (3nat, 'w', 'a', 'r', ' ', ' ', 'r'));
    reveal_strlit("yaoi");
    assert(fingerprint("yaoi"@) == (4nat, 'y', 'a', 'o', 'i', ' ', 'i'));
    reveal_strlit("yuri");
    assert(fingerprint("yuri"@) == (4nat, 'y', 'u', 'r', 'i', ' ', 'i'));
}

} // verus!
