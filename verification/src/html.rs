//! Selecting an element of an HTML document.

use vstd::prelude::*;
use vstd::utf8::encode_utf8;

verus! {

/// The longest document, in bytes, that is searched. `scraper` holds the
/// document and every text in it in buffers of `tendril`, whose lengths are
/// `u32` and whose growth past 2^31 bytes is a panic; the bound leaves an
/// eightfold margin below that.
pub const MAX_DOCUMENT_BYTES: usize = 0x1000_0000;

/// Whether `document` is short enough to be searched.
pub open spec fn searchable(document: Seq<char>) -> bool {
    encode_utf8(document).len() as usize <= MAX_DOCUMENT_BYTES
}

/// What `scraper` finds in a document: the text inside the first element
/// that matches a selector, or `None` where no element matches or the
/// selector is not one.
pub uninterp spec fn selected_text(document: Seq<char>, selector: Seq<char>) -> Option<Seq<char>>;

/// `scraper::Html::parse_document` on `document`, `scraper::Selector::parse`
/// on `selector`, and of the first element that `scraper::Html::select`
/// yields the text nodes that `scraper::ElementRef::text` walks, joined in
/// their order. A selector that does not parse selects nothing. Nothing is
/// claimed of the text but that it is a function of the two arguments. A
/// document of more than [`MAX_DOCUMENT_BYTES`] bytes is not admitted: the
/// parser panics on one that its buffers cannot hold.
#[verifier::external_body]
pub(crate) fn select_first_text(document: &str, selector: &str) -> (found: Option<String>)
    requires
        searchable(document@),
    ensures
        match found {
            Some(text) => selected_text(document@, selector@) == Some(text@),
            None => selected_text(document@, selector@).is_none(),
        },
{
    let html = scraper::Html::parse_document(document);
    match scraper::Selector::parse(selector) {
        Ok(parsed) => html.select(&parsed).next().map(|element| element.text().collect()),
        Err(_) => None,
    }
}

} // verus!
