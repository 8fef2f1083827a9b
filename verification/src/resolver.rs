//! The name resolver: from an item's short name to the address of its
//! reference page, and from that page to the item's canonical name.

use crate::html::{searchable, select_first_text, selected_text, MAX_DOCUMENT_BYTES};
use crate::outcome::{EnrichmentError, HttpReply};
use vstd::prelude::*;
use vstd::string::StringExecFns;

verus! {

/// The address of an item's reference page, up to the item's short name.
pub const REFERENCE_PAGE_BASE: &'static str = "https://wiki.facepunch.com/rust/item/";

/// The place of the canonical name in a reference page: the second of the
/// anchors that are children of the page-title block.
pub const TITLE_ANCHOR_SELECTOR: &'static str = "div.pagetitle > a:nth-of-type(2)";

/// The address of the reference page of the item `short_name`.
pub open spec fn reference_url_of(short_name: Seq<char>) -> Seq<char> {
    REFERENCE_PAGE_BASE@ + short_name
}

/// What a selection in the reference page resolves to: the selected text
/// as the canonical name, or the failure that no such element is there.
pub open spec fn resolution_of(selected: Option<Seq<char>>) -> Result<Seq<char>, EnrichmentError> {
    match selected {
        Some(name) => Ok(name),
        None => Err(EnrichmentError::StructureNotFound),
    }
}

/// What a reply to the request for a reference page resolves to. Only a
/// body can hold the name: a refusal and a failed request are both failures
/// of the network. A page that is too long to be searched is not searched.
pub open spec fn name_resolution(reply: HttpReply) -> Result<Seq<char>, EnrichmentError> {
    match reply {
        HttpReply::Body(page) => if searchable(page@) {
            resolution_of(selected_text(page@, TITLE_ANCHOR_SELECTOR@))
        } else {
            Err(EnrichmentError::PageTooLong)
        },
        HttpReply::Rejected => Err(EnrichmentError::Network),
        HttpReply::Failed => Err(EnrichmentError::Network),
    }
}

/// Whether `result` is the resolution `expected`, text for text.
pub open spec fn is_resolution(
    result: Result<String, EnrichmentError>,
    expected: Result<Seq<char>, EnrichmentError>,
) -> bool {
    match result {
        Ok(name) => expected == Ok::<Seq<char>, EnrichmentError>(name@),
        Err(failure) => expected == Err::<Seq<char>, EnrichmentError>(failure),
    }
}

/// The address of the reference page of the item `short_name`.
pub fn reference_url(short_name: &str) -> (url: String)
    ensures
        url@ == reference_url_of(short_name@),
{
    let mut url = String::from_str(REFERENCE_PAGE_BASE);
    url.append(short_name);
    url
}

/// Turns what was selected in a reference page into the resolution.
pub fn name_from_selection(selected: Option<String>) -> (result: Result<String, EnrichmentError>)
    ensures
        is_resolution(
            result,
            resolution_of(
                match selected {
                    Some(text) => Some(text@),
                    None => None,
                },
            ),
        ),
{
    match selected {
        Some(name) => Ok(name),
        None => Err(EnrichmentError::StructureNotFound),
    }
}

/// Resolves a canonical name from the reply to the request for a reference
/// page.
pub fn resolve_name(reply: &HttpReply) -> (result: Result<String, EnrichmentError>)
    ensures
        is_resolution(result, name_resolution(*reply)),
{
    match reply {
        HttpReply::Body(page) => if page.as_str().len() <= MAX_DOCUMENT_BYTES {
            name_from_selection(select_first_text(page.as_str(), TITLE_ANCHOR_SELECTOR))
        } else {
            Err(EnrichmentError::PageTooLong)
        },
        HttpReply::Rejected => Err(EnrichmentError::Network),
        HttpReply::Failed => Err(EnrichmentError::Network),
    }
}

} // verus!
