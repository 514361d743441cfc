//! The document tree and the queries that the extractors make of it.
//!
//! The tree, its element handles and compiled selectors belong to `scraper`.
//! Each query is a thin call into that crate; what it returns is given a name
//! here so that the extractors' contracts can say exactly which lookups they
//! compose.

use vstd::prelude::*;
use crate::error::{Error, ErrorView, RawKumaResult, element_not_found, attribute_not_found};

verus! {

#[verifier::external_type_specification]
#[verifier::external_body]
pub struct ExHtml(scraper::Html);

#[verifier::external_type_specification]
#[verifier::external_body]
pub struct ExElementRef<'a>(scraper::ElementRef<'a>);

#[verifier::external_type_specification]
#[verifier::external_body]
pub struct ExSelector(scraper::Selector);

/// What parsing `pattern` as a group of CSS selectors yields: the compiled
/// selector, or the parser's message where the pattern is not valid.
pub uninterp spec fn parsed_selector(pattern: Seq<char>) -> Result<scraper::Selector, Seq<char>>;

/// The descendants of `scope` that `selector` matches, in document order.
pub uninterp spec fn selected_within(
    scope: scraper::ElementRef,
    selector: scraper::Selector,
) -> Seq<scraper::ElementRef>;

/// The elements of the whole document that `selector` matches, in the order
/// in which the tree stores its nodes.
pub uninterp spec fn selected_in_document(
    document: &scraper::Html,
    selector: scraper::Selector,
) -> Seq<scraper::ElementRef>;

/// What compiling a pattern reports: `None` where the pattern is valid CSS,
/// else the parser's message.
pub open spec fn compile_failure(pattern: Seq<char>) -> Option<Seq<char>> {
    match parsed_selector(pattern) {
        Ok(_) => None,
        Err(cause) => Some(cause),
    }
}

/// The selector that a valid pattern compiles to.
pub open spec fn selector_of(pattern: Seq<char>) -> scraper::Selector
    recommends
        parsed_selector(pattern) is Ok,
{
    parsed_selector(pattern)->Ok_0
}

/// The descendants of `scope` that match `pattern`, in document order.
pub open spec fn matches_of(scope: scraper::ElementRef, pattern: Seq<char>) -> Seq<
    scraper::ElementRef,
> {
    selected_within(scope, selector_of(pattern))
}

/// The elements of the whole document that match `pattern`, in the order in
/// which the tree stores its nodes.
pub open spec fn document_matches<'a>(document: &'a scraper::Html, pattern: Seq<char>) -> Seq<
    scraper::ElementRef<'a>,
> {
    selected_in_document(document, selector_of(pattern))
}

/// The value of the attribute `name` on `element`, if it carries one.
pub uninterp spec fn attr_of(element: scraper::ElementRef, name: Seq<char>) -> Option<Seq<char>>;

/// The text nodes below `element`, in document order.
pub uninterp spec fn texts_of(element: scraper::ElementRef) -> Seq<Seq<char>>;

/// The markup of the children of `element`, serialised.
pub uninterp spec fn inner_html_of(element: scraper::ElementRef) -> Seq<char>;

/// The markup of `element` itself, serialised.
pub uninterp spec fn html_of(element: scraper::ElementRef) -> Seq<char>;

/// The tree that parsing `markup` as a fragment yields.
pub uninterp spec fn fragment_of(markup: Seq<char>) -> scraper::Html;

/// The text with every valid HTML entity expanded.
pub uninterp spec fn unescaped(escaped: Seq<char>) -> Seq<char>;

/// `htmlize::unescape`: expands every valid entity and leaves the rest of
/// the text as it is.
#[verifier::external_body]
pub(crate) fn unescape_entities(escaped: &str) -> (plain: String)
    ensures
        plain@ == unescaped(escaped@),
{
    htmlize::unescape(escaped).into_owned()
}

/// `Selector::parse`: the compiled selector, or the parser's message as
/// text. Parsing is a function of the pattern alone: one pattern always
/// compiles to equal selectors, or always fails with the same message.
#[verifier::external_body]
pub(crate) fn parse_selector(pattern: &str) -> (r: Result<scraper::Selector, String>)
    ensures
        match r {
            Ok(selector) => parsed_selector(pattern@) == Ok::<scraper::Selector, Seq<char>>(
                selector,
            ),
            Err(cause) => parsed_selector(pattern@) == Err::<scraper::Selector, Seq<char>>(cause@),
        },
{
    match scraper::Selector::parse(pattern) {
        Ok(selector) => Ok(selector),
        Err(kind) => Err(kind.to_string()),
    }
}

/// `ElementRef::select`, collected: the descendants of `scope` that the
/// selector matches, in document order.
#[verifier::external_body]
pub(crate) fn select_within<'a>(
    scope: &scraper::ElementRef<'a>,
    selector: &scraper::Selector,
) -> (found: Vec<scraper::ElementRef<'a>>)
    ensures
        found@ == selected_within(*scope, *selector),
{
    scope.select(selector).collect()
}

/// `Html::select`, collected: the elements of the document that the
/// selector matches, in the order in which the tree stores its nodes.
#[verifier::external_body]
pub(crate) fn select_document<'a>(document: &'a scraper::Html, selector: &scraper::Selector) -> (found:
    Vec<scraper::ElementRef<'a>>)
    ensures
        found@ == selected_in_document(document, *selector),
{
    document.select(selector).collect()
}

/// `ElementRef::attr`: the attribute's value, copied out of the tree.
#[verifier::external_body]
pub(crate) fn read_attr(element: &scraper::ElementRef, name: &str) -> (value: Option<String>)
    ensures
        value is Some <==> attr_of(*element, name@) is Some,
        value is Some ==> value->Some_0@ == attr_of(*element, name@)->Some_0,
{
    element.attr(name).map(String::from)
}

/// `ElementRef::text`, collected: each descendant text node, copied out of the
/// tree, in document order.
#[verifier::external_body]
pub(crate) fn read_texts(element: &scraper::ElementRef) -> (texts: Vec<String>)
    ensures
        texts@.len() == texts_of(*element).len(),
        forall|i: int| 0 <= i < texts@.len() ==> (#[trigger] texts@[i])@ == texts_of(*element)[i],
{
    element.text().map(String::from).collect()
}

/// `ElementRef::inner_html`: the serialised children.
#[verifier::external_body]
pub(crate) fn read_inner_html(element: &scraper::ElementRef) -> (markup: String)
    ensures
        markup@ == inner_html_of(*element),
{
    element.inner_html()
}

/// `ElementRef::html`: the serialised element.
#[verifier::external_body]
pub(crate) fn read_html(element: &scraper::ElementRef) -> (markup: String)
    ensures
        markup@ == html_of(*element),
{
    element.html()
}

/// `Html::parse_fragment`: the tree of a piece of markup. Parsing never fails;
/// malformed markup is repaired as a browser would.
#[verifier::external_body]
pub(crate) fn parse_fragment(markup: &str) -> (tree: scraper::Html)
    ensures
        tree == fragment_of(markup@),
{
    scraper::Html::parse_fragment(markup)
}

/// The error that compiling `pattern` ends in, if it is not valid CSS.
pub open spec fn compile_failure_of(pattern: Seq<char>) -> Option<ErrorView> {
    match compile_failure(pattern) {
        Some(cause) => Some(ErrorView::SelectorCompileError { pattern, cause }),
        None => None,
    }
}

/// What looking up every match of `pattern` below `scope` yields.
pub open spec fn lookup_all(scope: scraper::ElementRef, pattern: Seq<char>) -> Result<
    Seq<scraper::ElementRef>,
    ErrorView,
> {
    match compile_failure(pattern) {
        Some(cause) => Err(ErrorView::SelectorCompileError { pattern, cause }),
        None => Ok(matches_of(scope, pattern)),
    }
}

/// What looking up every match of `pattern` in a whole document yields.
pub open spec fn lookup_all_in_document<'a>(document: &'a scraper::Html, pattern: Seq<char>) -> Result<
    Seq<scraper::ElementRef<'a>>,
    ErrorView,
> {
    match compile_failure(pattern) {
        Some(cause) => Err(ErrorView::SelectorCompileError { pattern, cause }),
        None => Ok(document_matches(document, pattern)),
    }
}

/// The first of `found`, or the absence of the element described.
pub open spec fn first_of<'a>(
    found: Result<Seq<scraper::ElementRef<'a>>, ErrorView>,
    description: Seq<char>,
) -> Result<scraper::ElementRef<'a>, ErrorView> {
    match found {
        Err(error) => Err(error),
        Ok(elements) => if elements.len() > 0 {
            Ok(elements[0])
        } else {
            Err(ErrorView::ElementNotFound(description))
        },
    }
}

/// What looking up the first match of `pattern` below `scope` yields; its
/// absence is reported under `description`.
pub open spec fn lookup_first(
    scope: scraper::ElementRef,
    pattern: Seq<char>,
    description: Seq<char>,
) -> Result<scraper::ElementRef, ErrorView> {
    first_of(lookup_all(scope, pattern), description)
}

/// What looking up the first match of `pattern` in a whole document yields:
/// the first in the order in which the tree stores its nodes.
pub open spec fn lookup_first_in_document<'a>(
    document: &'a scraper::Html,
    pattern: Seq<char>,
    description: Seq<char>,
) -> Result<scraper::ElementRef<'a>, ErrorView> {
    first_of(lookup_all_in_document(document, pattern), description)
}

/// What looking up an element that may be absent yields: the first match
/// of `pattern` below `scope`, or nothing where there is none.
pub open spec fn lookup_optional(scope: scraper::ElementRef, pattern: Seq<char>) -> Result<
    Option<scraper::ElementRef>,
    ErrorView,
> {
    match lookup_all(scope, pattern) {
        Err(error) => Err(error),
        Ok(elements) => if elements.len() > 0 {
            Ok(Some(elements[0]))
        } else {
            Ok(None)
        },
    }
}

/// The attribute `name` of `element`, required: its absence is reported with
/// the element's `description`.
pub open spec fn required_attr_of(
    element: scraper::ElementRef,
    name: Seq<char>,
    description: Seq<char>,
) -> Result<Seq<char>, ErrorView> {
    match attr_of(element, name) {
        Some(value) => Ok(value),
        None => Err(ErrorView::AttributeNotFound { name, element: description }),
    }
}

/// The attribute `name` of `element`, or the empty string where it carries
/// none.
pub open spec fn attr_or_empty_of(element: scraper::ElementRef, name: Seq<char>) -> Seq<char> {
    match attr_of(element, name) {
        Some(value) => value,
        None => Seq::empty(),
    }
}

/// The first text node below `element`, if there is one.
pub open spec fn first_text_of(element: scraper::ElementRef) -> Option<Seq<char>> {
    if texts_of(element).len() > 0 {
        Some(texts_of(element)[0])
    } else {
        None
    }
}

/// The first text node below `element`, required.
pub open spec fn required_text_of(element: scraper::ElementRef) -> Result<Seq<char>, ErrorView> {
    match first_text_of(element) {
        Some(text) => Ok(text),
        None => Err(ErrorView::TextContentNotFound),
    }
}

/// The first text node below `element`, or the empty string.
pub open spec fn text_or_empty(element: scraper::ElementRef) -> Seq<char> {
    match first_text_of(element) {
        Some(text) => text,
        None => Seq::empty(),
    }
}

/// All of `parts`, joined in order.
pub open spec fn joined(parts: Seq<Seq<char>>) -> Seq<char>
    decreases parts.len(),
{
    if parts.len() == 0 {
        Seq::empty()
    } else {
        joined(parts.drop_last()) + parts.last()
    }
}

/// The model of a result that holds a string.
pub open spec fn text_result(r: RawKumaResult<String>) -> Result<Seq<char>, ErrorView> {
    match r {
        Ok(value) => Ok(value@),
        Err(error) => Err(error@),
    }
}

/// The model of a result that holds element handles.
pub open spec fn elements_result(r: RawKumaResult<Vec<scraper::ElementRef>>) -> Result<
    Seq<scraper::ElementRef>,
    ErrorView,
> {
    match r {
        Ok(value) => Ok(value@),
        Err(error) => Err(error@),
    }
}

/// The model of a result that holds one element handle.
pub open spec fn element_result(r: RawKumaResult<scraper::ElementRef>) -> Result<
    scraper::ElementRef,
    ErrorView,
> {
    match r {
        Ok(value) => Ok(value),
        Err(error) => Err(error@),
    }
}

/// Whether `r` is what compiling `pattern` yields: the selector that the
/// pattern parses to where it is valid, else the compile error with the
/// parser's message.
pub open spec fn compiled(r: RawKumaResult<scraper::Selector>, pattern: Seq<char>) -> bool {
    match r {
        Ok(selector) => parsed_selector(pattern) == Ok::<scraper::Selector, Seq<char>>(selector),
        Err(error) => compile_failure(pattern) is Some && error@ == (
        ErrorView::SelectorCompileError { pattern, cause: compile_failure(pattern)->Some_0 }),
    }
}

/// Compiles a selector pattern.
pub fn compile(pattern: &str) -> (r: RawKumaResult<scraper::Selector>)
    ensures
        compiled(r, pattern@),
{
    match parse_selector(pattern) {
        Ok(selector) => Ok(selector),
        Err(cause) => Err(Error::SelectorCompileError { pattern: String::from_str(pattern), cause }),
    }
}

/// Every descendant of `scope` that matches `pattern`, in document order.
pub fn select_all<'a>(scope: &scraper::ElementRef<'a>, pattern: &str) -> (r: RawKumaResult<
    Vec<scraper::ElementRef<'a>>,
>)
    ensures
        elements_result(r) == lookup_all(*scope, pattern@),
{
    let selector = compile(pattern)?;
    Ok(select_within(scope, &selector))
}

/// Every element of `document` that matches `pattern`, in the order in which
/// the tree stores its nodes.
pub fn select_all_in_document<'a>(document: &'a scraper::Html, pattern: &str) -> (r: RawKumaResult<
    Vec<scraper::ElementRef<'a>>,
>)
    ensures
        elements_result(r) == lookup_all_in_document(document, pattern@),
{
    let selector = compile(pattern)?;
    Ok(select_document(document, &selector))
}

/// The first descendant of `scope` that matches `pattern`.
pub fn select_first<'a>(scope: &scraper::ElementRef<'a>, pattern: &str, description: &str) -> (r:
    RawKumaResult<scraper::ElementRef<'a>>)
    ensures
        element_result(r) == lookup_first(*scope, pattern@, description@),
{
    let found = select_all(scope, pattern)?;
    if found.len() > 0 {
        Ok(found[0])
    } else {
        Err(element_not_found(description))
    }
}

/// The first element of `document` that matches `pattern`, in the order in
/// which the tree stores its nodes.
pub fn select_first_in_document<'a>(
    document: &'a scraper::Html,
    pattern: &str,
    description: &str,
) -> (r: RawKumaResult<scraper::ElementRef<'a>>)
    ensures
        element_result(r) == lookup_first_in_document(document, pattern@, description@),
{
    let found = select_all_in_document(document, pattern)?;
    if found.len() > 0 {
        Ok(found[0])
    } else {
        Err(element_not_found(description))
    }
}

/// The first descendant of `scope` that matches `pattern`, if there is one.
pub fn select_optional<'a>(scope: &scraper::ElementRef<'a>, pattern: &str) -> (r: RawKumaResult<
    Option<scraper::ElementRef<'a>>,
>)
    ensures
        match r {
            Ok(found) => lookup_optional(*scope, pattern@) == Ok::<
                Option<scraper::ElementRef>,
                ErrorView,
            >(found),
            Err(error) => lookup_optional(*scope, pattern@) == Err::<
                Option<scraper::ElementRef>,
                ErrorView,
            >(error@),
        },
{
    let found = select_all(scope, pattern)?;
    if found.len() > 0 {
        Ok(Some(found[0]))
    } else {
        Ok(None)
    }
}

/// The value of a required attribute.
pub fn required_attr(element: &scraper::ElementRef, name: &str, description: &str) -> (r:
    RawKumaResult<String>)
    ensures
        text_result(r) == required_attr_of(*element, name@, description@),
{
    match read_attr(element, name) {
        Some(value) => Ok(value),
        None => Err(attribute_not_found(name, description)),
    }
}

/// The value of an optional attribute, empty where it is absent.
pub fn attr_or_empty(element: &scraper::ElementRef, name: &str) -> (value: String)
    ensures
        value@ == attr_or_empty_of(*element, name@),
{
    match read_attr(element, name) {
        Some(value) => value,
        None => String::new(),
    }
}

/// The first text node below an element, if any.
pub fn first_text(element: &scraper::ElementRef) -> (r: Option<String>)
    ensures
        r is Some <==> first_text_of(*element) is Some,
        r is Some ==> r->Some_0@ == first_text_of(*element)->Some_0,
{
    let texts = read_texts(element);
    if texts.len() > 0 {
        Some(texts[0].clone())
    } else {
        None
    }
}

/// The first text node below an element, required.
pub fn required_text(element: &scraper::ElementRef) -> (r: RawKumaResult<String>)
    ensures
        text_result(r) == required_text_of(*element),
{
    match first_text(element) {
        Some(text) => Ok(text),
        None => Err(Error::TextContentNotFound),
    }
}

/// Every text node below an element, joined in document order.
pub fn all_text(element: &scraper::ElementRef) -> (text: String)
    ensures
        text@ == joined(texts_of(*element)),
{
    let texts = read_texts(element);
    let mut text = String::new();
    let mut i: usize = 0;
    while i < texts.len()
        invariant
            i <= texts@.len(),
            texts@.len() == texts_of(*element).len(),
            forall|k: int| 0 <= k < texts@.len() ==> (#[trigger] texts@[k])@ == texts_of(*element)[k],
            text@ == joined(texts_of(*element).take(i as int)),
        decreases texts@.len() - i,
    {
        proof {
            let parts = texts_of(*element);
            assert(parts.take(i + 1).drop_last() =~= parts.take(i as int));
        }
        text.append(texts[i].as_str());
        i = i + 1;
    }
    proof {
        assert(texts_of(*element).take(i as int) =~= texts_of(*element));
    }
    text
}

/// The first text node below an element, or the empty string.
pub fn first_text_or_empty(element: &scraper::ElementRef) -> (text: String)
    ensures
        text@ == text_or_empty(*element),
{
    match first_text(element) {
        Some(text) => text,
        None => String::new(),
    }
}

} // verus!
