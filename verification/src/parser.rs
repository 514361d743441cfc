//! The page parsers: one per page type, each bound to the regions of one
//! document that its accessors read.

use vstd::prelude::*;
use crate::dom::{
    compile, compiled, element_result, lookup_first_in_document, select_first_in_document,
};
use crate::error::{ErrorView, RawKumaResult, result_view};

pub mod chapter;
pub mod home;
pub mod manga_details;
pub mod search;

verus! {

/// A bundle of read-only accessors over one document.
pub trait HtmlParser<'a>: Sized + View {
    /// What binding a parser to `html` yields: the parser, or the absence of
    /// a region that it needs.
    spec fn located(html: &'a scraper::Html) -> Result<Self::V, ErrorView>;

    /// Binds a parser to a document by locating its regions.
    fn init(html: &'a scraper::Html) -> (r: RawKumaResult<Self>)
        ensures
            result_view(r) == Self::located(html),
    ;
}

/// The selector of the main content container.
pub fn get_content_selector() -> (r: RawKumaResult<scraper::Selector>)
    ensures
        compiled(r, "div#content"@),
{
    compile("div#content")
}

/// The content region of a document.
pub open spec fn content_of<'a>(html: &'a scraper::Html) -> Result<scraper::ElementRef<'a>, ErrorView> {
    lookup_first_in_document(html, "div#content"@, "#content"@)
}

/// Locates the main content container, to which every further lookup of a
/// page is scoped.
pub fn get_content_element<'a>(html: &'a scraper::Html) -> (r: RawKumaResult<scraper::ElementRef<'a>>)
    ensures
        element_result(r) == content_of(html),
{
    select_first_in_document(html, "div#content", "#content")
}

} // verus!
