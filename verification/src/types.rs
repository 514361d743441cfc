//! The records that pages are read into, and the capabilities that read them.

use vstd::prelude::*;
use crate::error::{ErrorView, RawKumaResult, result_view};
use crate::parser::HtmlParser;

pub mod bixbox;
pub mod bsx;
pub mod categories;
pub mod chapter;
pub mod chapterlist;
pub mod genre_tag;
pub mod home;
pub mod manga;
pub mod params;
pub mod reader_area;
pub mod search;
pub mod ts_reader_args;
pub mod utao;

pub use bixbox::{BixboxData, BixboxDataBuilder};
pub use bsx::{BsxTitleData, BsxTitleDataBuilder, TitleData};
pub use categories::CategoryMap;
pub use chapterlist::{Chapter, ChapterBuilder, ChapterList, ChapterListBuilder};
pub use genre_tag::{MgenTag, MgenTagBuilder};
pub use params::{HomeParameters, MangaListParameter};
pub use reader_area::{ReaderArea, ReaderAreaBuilder, ReaderAreaImage, ReaderAreaImageBuilder};
pub use utao::{UtaoTitleChapter, UtaoTitleChapterBuilder, UtaoTitleData, UtaoTitleDataBuilder};

verus! {

/// The models of a sequence of values.
pub open spec fn views<T: View>(items: Seq<T>) -> Seq<T::V> {
    items.map_values(|item: T| item@)
}

/// The model of an optional string.
pub open spec fn option_text(o: Option<String>) -> Option<Seq<char>> {
    match o {
        Some(text) => Some(text@),
        None => None,
    }
}

/// The values that a sequence of extraction outcomes succeeded with, in order.
pub open spec fn successes<V>(outcomes: Seq<Result<V, ErrorView>>) -> Seq<V> {
    outcomes.filter(|o: Result<V, ErrorView>| o is Ok).map_values(|o: Result<V, ErrorView>| o->Ok_0)
}

/// Whether `k` is the place of the first failure among `outcomes`.
pub open spec fn is_first_failure<V>(outcomes: Seq<Result<V, ErrorView>>, k: int) -> bool {
    &&& 0 <= k < outcomes.len()
    &&& outcomes[k] is Err
    &&& forall|j: int| 0 <= j < k ==> (#[trigger] outcomes[j]) is Ok
}

/// All the values of `outcomes` if each succeeded, else the first failure.
pub open spec fn all_or_first_failure<V>(outcomes: Seq<Result<V, ErrorView>>) -> Result<
    Seq<V>,
    ErrorView,
> {
    if forall|i: int| 0 <= i < outcomes.len() ==> (#[trigger] outcomes[i]) is Ok {
        Ok(outcomes.map_values(|o: Result<V, ErrorView>| o->Ok_0))
    } else {
        Err(outcomes[choose|k: int| is_first_failure(outcomes, k)]->Err_0)
    }
}

/// The model of a result that holds a list of values.
pub open spec fn list_result<T: View>(r: RawKumaResult<Vec<T>>) -> Result<Seq<T::V>, ErrorView> {
    match r {
        Ok(items) => Ok(views(items@)),
        Err(error) => Err(error@),
    }
}

/// The models of a sequence of outcomes.
pub open spec fn outcome_views<T: View>(outcomes: Seq<RawKumaResult<T>>) -> Seq<
    Result<T::V, ErrorView>,
> {
    outcomes.map_values(|o: RawKumaResult<T>| result_view(o))
}

/// The outcomes, last first.
fn reversed<T: View>(outcomes: Vec<RawKumaResult<T>>) -> (turned: Vec<RawKumaResult<T>>)
    ensures
        turned@.len() == outcomes@.len(),
        forall|k: int|
            0 <= k < turned@.len() ==> #[trigger] turned@[k] == outcomes@[outcomes@.len() - 1 - k],
{
    let mut rest = outcomes;
    let mut turned: Vec<RawKumaResult<T>> = Vec::new();
    while rest.len() > 0
        invariant
            rest@.len() <= outcomes@.len(),
            rest@ == outcomes@.take(rest@.len() as int),
            turned@.len() == outcomes@.len() - rest@.len(),
            forall|k: int|
                0 <= k < turned@.len() ==> #[trigger] turned@[k] == outcomes@[outcomes@.len() - 1
                    - k],
        decreases rest@.len(),
    {
        let ghost n = rest@.len() as int;
        match rest.pop() {
            Some(outcome) => {
                proof {
                    assert(outcome == outcomes@.take(n)[n - 1]);
                    assert(rest@ =~= outcomes@.take(n - 1));
                }
                turned.push(outcome);
            },
            None => {},
        }
    }
    turned
}

/// The tolerant policy on outcomes that are already there: keeps the value
/// of each success, in order, and drops the failures.
pub fn keep_successes<T: View>(outcomes: Vec<RawKumaResult<T>>) -> (kept: Vec<T>)
    ensures
        views(kept@) == successes(outcome_views(outcomes@)),
{
    let ghost all = outcome_views(outcomes@);
    let mut rest = reversed(outcomes);
    let mut kept: Vec<T> = Vec::new();
    let ghost total = rest@.len() as int;
    proof {
        assert(all.take(0) =~= Seq::empty());
        reveal(Seq::filter);
        assert(successes(all.take(0)) =~= Seq::empty());
        assert(views(kept@) =~= Seq::empty());
    }
    while rest.len() > 0
        invariant
            total == all.len(),
            rest@.len() <= total,
            forall|k: int|
                0 <= k < rest@.len() ==> result_view(#[trigger] rest@[k]) == all[total - 1 - k],
            views(kept@) == successes(all.take(total - rest@.len())),
        decreases rest@.len(),
    {
        let ghost i = total - rest@.len();
        let ghost top = rest@.last();
        proof {
            assert(result_view(rest@[rest@.len() - 1]) == all[i]);
            assert(all.take(i + 1).drop_last() =~= all.take(i));
            assert(all.take(i + 1).last() == all[i]);
            lemma_successes_step(all.take(i + 1));
        }
        match rest.pop() {
            Some(Ok(value)) => {
                proof {
                    assert(views(kept@.push(value)) =~= views(kept@).push(value@));
                }
                kept.push(value);
            },
            Some(Err(_)) => {},
            None => {},
        }
    }
    proof {
        assert(all.take(total) =~= all);
    }
    kept
}

/// The strict policy on outcomes that are already there: every value if
/// each outcome is a success, else the first failure in order.
pub fn all_or_first<T: View>(outcomes: Vec<RawKumaResult<T>>) -> (r: RawKumaResult<Vec<T>>)
    ensures
        list_result(r) == all_or_first_failure(outcome_views(outcomes@)),
{
    let ghost all = outcome_views(outcomes@);
    let mut rest = reversed(outcomes);
    let mut kept: Vec<T> = Vec::new();
    let ghost total = rest@.len() as int;
    proof {
        assert(views(kept@) =~= all.take(0).map_values(|o: Result<T::V, ErrorView>| o->Ok_0));
    }
    while rest.len() > 0
        invariant
            total == all.len(),
            all == outcome_views(outcomes@),
            rest@.len() <= total,
            forall|k: int|
                0 <= k < rest@.len() ==> result_view(#[trigger] rest@[k]) == all[total - 1 - k],
            forall|j: int| 0 <= j < total - rest@.len() ==> (#[trigger] all[j]) is Ok,
            views(kept@) == all.take(total - rest@.len()).map_values(
                |o: Result<T::V, ErrorView>| o->Ok_0,
            ),
        decreases rest@.len(),
    {
        let ghost i = total - rest@.len();
        proof {
            assert(result_view(rest@[rest@.len() - 1]) == all[i]);
        }
        match rest.pop() {
            Some(Ok(item)) => {
                proof {
                    assert(views(kept@.push(item)) =~= views(kept@).push(item@));
                    assert(all[i] == Ok::<T::V, ErrorView>(item@));
                    assert(all.take(i + 1).map_values(|o: Result<T::V, ErrorView>| o->Ok_0)
                        =~= all.take(i).map_values(|o: Result<T::V, ErrorView>| o->Ok_0).push(
                        item@,
                    ));
                }
                kept.push(item);
            },
            Some(Err(error)) => {
                proof {
                    assert(all[i] == Err::<T::V, ErrorView>(error@));
                    assert(is_first_failure(all, i));
                    lemma_first_failure_unique(all, i);
                }
                return Err(error);
            },
            None => {},
        }
    }
    proof {
        assert(all.take(total) =~= all);
    }
    Ok(kept)
}

/// A value that can be read out of one element of a document.
pub trait FromElementRef<'a>: Sized + View {
    /// What reading `data` yields: the value, or the first failure met.
    spec fn extracted(data: scraper::ElementRef<'a>) -> Result<Self::V, ErrorView>;

    /// Reads one value out of one element. The first field that fails aborts
    /// the whole value.
    fn from_element_ref(data: &scraper::ElementRef<'a>) -> (r: RawKumaResult<Self>)
        ensures
            result_view(r) == Self::extracted(*data),
    ;

    /// Reads a value out of each element and keeps those that succeed, in the
    /// order of their elements. Elements that fail are skipped; the call
    /// itself never fails.
    fn from_vec_element(elements: &Vec<scraper::ElementRef<'a>>) -> (r: RawKumaResult<Vec<Self>>)
        ensures
            list_result(r) == Ok::<Seq<Self::V>, ErrorView>(
                successes(elements@.map_values(|e: scraper::ElementRef<'a>| Self::extracted(e))),
            ),
    {
        let mut datas: Vec<Self> = Vec::new();
        let mut i: usize = 0;
        while i < elements.len()
            invariant
                i <= elements@.len(),
                views(datas@) == successes(
                    elements@.take(i as int).map_values(
                        |e: scraper::ElementRef<'a>| Self::extracted(e),
                    ),
                ),
            decreases elements@.len() - i,
        {
            let ghost before = elements@.take(i as int).map_values(
                |e: scraper::ElementRef<'a>| Self::extracted(e),
            );
            let ghost after = elements@.take(i + 1).map_values(
                |e: scraper::ElementRef<'a>| Self::extracted(e),
            );
            proof {
                assert(after.drop_last() =~= before);
                assert(after.last() == Self::extracted(elements@[i as int]));
                lemma_successes_step(after);
            }
            match Self::from_element_ref(&elements[i]) {
                Ok(d) => {
                    proof {
                        assert(views(datas@.push(d)) =~= views(datas@).push(d@));
                    }
                    datas.push(d);
                },
                Err(_) => {},
            }
            i = i + 1;
        }
        proof {
            assert(elements@.take(i as int) =~= elements@);
        }
        Ok(datas)
    }

    /// Reads a value out of each element and fails with the first failure met,
    /// in the order of the elements. On success the list is complete.
    fn from_vec_element_strict(elements: &Vec<scraper::ElementRef<'a>>) -> (r: RawKumaResult<
        Vec<Self>,
    >)
        ensures
            list_result(r) == all_or_first_failure(
                elements@.map_values(|e: scraper::ElementRef<'a>| Self::extracted(e)),
            ),
    {
        let ghost outcomes = elements@.map_values(|e: scraper::ElementRef<'a>| Self::extracted(e));
        let mut datas: Vec<Self> = Vec::new();
        let mut i: usize = 0;
        while i < elements.len()
            invariant
                i <= elements@.len(),
                outcomes == elements@.map_values(|e: scraper::ElementRef<'a>| Self::extracted(e)),
                forall|j: int| 0 <= j < i ==> (#[trigger] outcomes[j]) is Ok,
                views(datas@) == outcomes.take(i as int).map_values(
                    |o: Result<Self::V, ErrorView>| o->Ok_0,
                ),
            decreases elements@.len() - i,
        {
            match Self::from_element_ref(&elements[i]) {
                Ok(d) => {
                    proof {
                        assert(views(datas@.push(d)) =~= views(datas@).push(d@));
                        assert(outcomes.take(i + 1).map_values(
                            |o: Result<Self::V, ErrorView>| o->Ok_0,
                        ) =~= outcomes.take(i as int).map_values(
                            |o: Result<Self::V, ErrorView>| o->Ok_0,
                        ).push(d@));
                    }
                    datas.push(d);
                },
                Err(error) => {
                    proof {
                        assert(is_first_failure(outcomes, i as int));
                        lemma_first_failure_unique(outcomes, i as int);
                    }
                    return Err(error);
                },
            }
            i = i + 1;
        }
        proof {
            assert(outcomes.take(i as int) =~= outcomes);
        }
        Ok(datas)
    }
}

/// One more outcome adds its value to the successes if it has one, and
/// nothing otherwise.
pub proof fn lemma_successes_step<V>(outcomes: Seq<Result<V, ErrorView>>)
    requires
        outcomes.len() > 0,
    ensures
        successes(outcomes) == if outcomes.last() is Ok {
            successes(outcomes.drop_last()).push(outcomes.last()->Ok_0)
        } else {
            successes(outcomes.drop_last())
        },
{
    reveal(Seq::filter);
    let kept = |o: Result<V, ErrorView>| o is Ok;
    let value = |o: Result<V, ErrorView>| o->Ok_0;
    if outcomes.last() is Ok {
        assert(outcomes.filter(kept) == outcomes.drop_last().filter(kept).push(outcomes.last()));
        assert(outcomes.filter(kept).map_values(value) =~= outcomes.drop_last().filter(
            kept,
        ).map_values(value).push(outcomes.last()->Ok_0));
    } else {
        assert(outcomes.filter(kept) == outcomes.drop_last().filter(kept));
    }
}

/// There is one first failure at most.
pub proof fn lemma_first_failure_unique<V>(outcomes: Seq<Result<V, ErrorView>>, k: int)
    requires
        is_first_failure(outcomes, k),
    ensures
        (choose|j: int| is_first_failure(outcomes, j)) == k,
        all_or_first_failure(outcomes) == Err::<Seq<V>, ErrorView>(outcomes[k]->Err_0),
{
    let j = choose|j: int| is_first_failure(outcomes, j);
    assert(is_first_failure(outcomes, j));
    if j < k {
        assert(outcomes[j] is Ok);
    }
    if k < j {
        assert(outcomes[k] is Ok);
    }
    assert(!(outcomes[k] is Ok));
}

/// How many of the outcomes are failures.
pub open spec fn failures<V>(outcomes: Seq<Result<V, ErrorView>>) -> nat {
    outcomes.filter(|o: Result<V, ErrorView>| o is Err).len()
}

/// Where among `outcomes` the success stands that comes out as number `a`
/// of the successes.
pub open spec fn place_of<V>(outcomes: Seq<Result<V, ErrorView>>, a: int) -> int
    decreases outcomes.len(),
{
    if outcomes.len() == 0 {
        0
    } else if outcomes.last() is Ok && a == successes(outcomes.drop_last()).len() {
        outcomes.len() - 1
    } else {
        place_of(outcomes.drop_last(), a)
    }
}

/// The tolerant policy drops exactly the failures: of `n` outcomes with `k`
/// failures among them, `n - k` values are left.
pub proof fn lemma_tolerant_skip_length<V>(outcomes: Seq<Result<V, ErrorView>>)
    ensures
        successes(outcomes).len() + failures(outcomes) == outcomes.len(),
    decreases outcomes.len(),
{
    reveal(Seq::filter);
    let failed = |o: Result<V, ErrorView>| o is Err;
    if outcomes.len() > 0 {
        lemma_tolerant_skip_length(outcomes.drop_last());
        lemma_successes_step(outcomes);
        if outcomes.last() is Err {
            assert(outcomes.filter(failed) == outcomes.drop_last().filter(failed).push(
                outcomes.last(),
            ));
        } else {
            assert(outcomes.filter(failed) == outcomes.drop_last().filter(failed));
        }
    } else {
        assert(outcomes.filter(failed).len() == 0);
        assert(successes(outcomes).len() == 0);
    }
}

/// Each value that the tolerant policy keeps is the value of the success at
/// its place.
pub proof fn lemma_tolerant_skip_place<V>(outcomes: Seq<Result<V, ErrorView>>, a: int)
    requires
        0 <= a < successes(outcomes).len(),
    ensures
        0 <= place_of(outcomes, a) < outcomes.len(),
        outcomes[place_of(outcomes, a)] == Ok::<V, ErrorView>(successes(outcomes)[a]),
    decreases outcomes.len(),
{
    if outcomes.len() == 0 {
        lemma_tolerant_skip_length(outcomes);
    } else {
        lemma_successes_step(outcomes);
        if outcomes.last() is Ok && a == successes(outcomes.drop_last()).len() {
        } else {
            lemma_tolerant_skip_place(outcomes.drop_last(), a);
        }
    }
}

/// The tolerant policy keeps the order: of two values that it keeps, the
/// one that comes out first stood first among the outcomes.
pub proof fn lemma_tolerant_skip_order<V>(outcomes: Seq<Result<V, ErrorView>>, a: int, b: int)
    requires
        0 <= a < b < successes(outcomes).len(),
    ensures
        0 <= place_of(outcomes, a) < place_of(outcomes, b) < outcomes.len(),
        outcomes[place_of(outcomes, a)] == Ok::<V, ErrorView>(successes(outcomes)[a]),
        outcomes[place_of(outcomes, b)] == Ok::<V, ErrorView>(successes(outcomes)[b]),
    decreases outcomes.len(),
{
    lemma_tolerant_skip_place(outcomes, a);
    lemma_tolerant_skip_place(outcomes, b);
    if outcomes.len() > 0 {
        lemma_successes_step(outcomes);
        if outcomes.last() is Ok && b == successes(outcomes.drop_last()).len() {
            lemma_tolerant_skip_place(outcomes.drop_last(), a);
        } else {
            lemma_tolerant_skip_order(outcomes.drop_last(), a, b);
        }
    }
}

/// A record that can be assembled from a page parser of type `T`.
pub trait FromHtmlParser<'a, T>: Sized + View where T: HtmlParser<'a> {
    /// What assembling from `parser` yields: the record, or the first failure
    /// that one of the parser's accessors reported.
    spec fn assembled(parser: T) -> Result<Self::V, ErrorView>;

    /// Assembles the record. A failed accessor ends the assembly with that
    /// accessor's own error.
    fn from(parser: T) -> (r: RawKumaResult<Self>)
        ensures
            result_view(r) == Self::assembled(parser),
    ;
}

/// A set of query parameters of a page request.
pub trait ToUrlParam {
    /// The name and value of each parameter, in the order of the query string.
    spec fn url_params(&self) -> Seq<(Seq<char>, Seq<char>)>;

    /// The name and value of each parameter, in the order of the query string.
    fn to_url_param(&self) -> (pairs: Vec<(String, String)>)
        ensures
            pairs@.len() == self.url_params().len(),
            forall|i: int|
                0 <= i < pairs@.len() ==> (#[trigger] pairs@[i]).0@ == self.url_params()[i].0
                    && pairs@[i].1@ == self.url_params()[i].1,
    ;
}

/// Assembly is a function of the parser: two assemblies from one parser
/// agree in every field, and fail alike where they fail.
pub proof fn lemma_assembly_is_deterministic<'a, P: HtmlParser<'a>, R: FromHtmlParser<'a, P>>(
    parser: P,
    first: RawKumaResult<R>,
    second: RawKumaResult<R>,
)
    requires
        result_view(first) == R::assembled(parser),
        result_view(second) == R::assembled(parser),
    ensures
        result_view(first) == result_view(second),
{
}

/// Binding a parser is a function of the document: two parsers bound to one
/// document hold the same regions.
pub proof fn lemma_init_is_deterministic<'a, P: HtmlParser<'a>>(
    html: &'a scraper::Html,
    first: RawKumaResult<P>,
    second: RawKumaResult<P>,
)
    requires
        result_view(first) == P::located(html),
        result_view(second) == P::located(html),
    ensures
        result_view(first) == result_view(second),
{
}

} // verus!
