//! The identifier fetcher: from a canonical name to the query that asks the
//! remote catalog for the item's variants, and from the catalog's answer to
//! the identifiers that it names.
//!
//! The answer is a JSON object whose member `items` is an array. An item
//! names an identifier through the address of its second action: the
//! address of the variant's page, which ends in the identifier. An item
//! without such an address is left out in silence. An address of the right
//! beginning whose rest is no identifier is left out too, and handed to the
//! caller apart, so that it can be reported.

use crate::json::{json_of_text, named_member, parse_text, trees_of, Json, JsonTree};
use crate::outcome::{EnrichmentError, HttpReply};
use crate::text::{after_prefix, chars_of, parse_u32_from, starts_with, u32_of_text};
use vstd::prelude::*;
use vstd::string::StringExecFns;

verus! {

/// The address that the connectivity probe asks: the root of the catalog's
/// host.
pub const PROBE_URL: &'static str = "https://rust.scmm.app";

/// The catalog query, up to the canonical name.
pub const CATALOG_QUERY_BASE: &'static str = "https://rust.scmm.app/api/item?type=";

/// The catalog query, after the canonical name: at most 5000 results are
/// asked for.
pub const CATALOG_QUERY_TAIL: &'static str = "&count=5000";

/// What stands before the identifier in the address of a variant's page.
pub const DETAILS_URL_PREFIX: &'static str =
    "https://steamcommunity.com/sharedfiles/filedetails/?id=";

/// The member of the catalog's answer that holds the items.
pub const ITEMS_FIELD: &'static str = "items";

/// The member of an item that holds its actions.
pub const ACTIONS_FIELD: &'static str = "actions";

/// The member of an action that holds its address.
pub const URL_FIELD: &'static str = "url";

/// The place, among the actions of an item, of the action that leads to the
/// variant's page.
pub const DETAILS_ACTION_INDEX: usize = 1;

/// What an address says of an identifier.
#[derive(Debug, Clone, Copy, PartialEq, Eq, Structural)]
pub enum UrlReading {
    /// The address of a variant's page, and the identifier it ends in.
    Identifier(u32),
    /// The address begins as that of a variant's page, and what follows is
    /// no identifier.
    Malformed,
    /// Any other address, and the beginning with nothing behind it.
    Unrelated,
}

/// What the catalog's answer holds for one record.
#[derive(Debug, PartialEq, Eq)]
pub struct Answer {
    /// The identifiers that the items name, in the order of the items.
    pub identifiers: Vec<u32>,
    /// The malformed addresses among those of the items, in the order of
    /// the items. They stand for no identifier.
    pub malformed: Vec<String>,
}

/// The mathematical value of an [`Answer`].
pub struct AnswerView {
    pub identifiers: Seq<u32>,
    pub malformed: Seq<Seq<char>>,
}

impl View for Answer {
    type V = AnswerView;

    open spec fn view(&self) -> AnswerView {
        AnswerView {
            identifiers: self.identifiers@,
            malformed: Seq::new(self.malformed@.len(), |i: int| self.malformed@[i]@),
        }
    }
}

/// The query that asks the catalog for the variants of `canonical_name`.
pub open spec fn catalog_url_of(canonical_name: Seq<char>) -> Seq<char> {
    CATALOG_QUERY_BASE@ + canonical_name + CATALOG_QUERY_TAIL@
}

/// What the address `url` says of an identifier. What follows the fixed
/// prefix is read as a `u32`.
pub open spec fn url_reading(url: Seq<char>) -> UrlReading {
    match after_prefix(url, DETAILS_URL_PREFIX@) {
        Some(rest) => match u32_of_text(rest) {
            Some(identifier) => UrlReading::Identifier(identifier),
            None => if rest.len() > 0 {
                UrlReading::Malformed
            } else {
                UrlReading::Unrelated
            },
        },
        None => UrlReading::Unrelated,
    }
}

/// The address of the second action of an item of the catalog's answer:
/// that action has to be an object, and its address a text.
pub open spec fn item_url(item: JsonTree) -> Option<Seq<char>> {
    match item.member(ACTIONS_FIELD@) {
        Some(actions) => match actions.element(DETAILS_ACTION_INDEX as int) {
            Some(JsonTree::Object(fields)) => match named_member(fields, URL_FIELD@) {
                Some(JsonTree::Text(url)) => Some(url),
                _ => None,
            },
            _ => None,
        },
        None => None,
    }
}

/// The identifier that an item of the catalog's answer names.
pub open spec fn item_identifier(item: JsonTree) -> Option<u32> {
    match item_url(item) {
        Some(url) => match url_reading(url) {
            UrlReading::Identifier(identifier) => Some(identifier),
            _ => None,
        },
        None => None,
    }
}

/// The address of an item of the catalog's answer, where it is malformed.
pub open spec fn item_malformed(item: JsonTree) -> Option<Seq<char>> {
    match item_url(item) {
        Some(url) => match url_reading(url) {
            UrlReading::Malformed => Some(url),
            _ => None,
        },
        None => None,
    }
}

/// The identifiers that the items of `items` name, in the order of the
/// items, the items that name none left out.
pub open spec fn item_identifiers(items: Seq<JsonTree>) -> Seq<u32> {
    items.filter_map(|item: JsonTree| item_identifier(item))
}

/// The malformed addresses among those of the items of `items`, in the
/// order of the items.
pub open spec fn malformed_urls(items: Seq<JsonTree>) -> Seq<Seq<char>> {
    items.filter_map(|item: JsonTree| item_malformed(item))
}

/// The items of the catalog's answer: the elements of its member `items`,
/// where that is an array. Any other document has no items.
pub open spec fn answer_items(document: JsonTree) -> Seq<JsonTree> {
    match document.member(ITEMS_FIELD@) {
        Some(JsonTree::Array(items)) => items,
        _ => Seq::empty(),
    }
}

/// What the catalog's answer holds.
pub open spec fn answer_of(document: JsonTree) -> AnswerView {
    AnswerView {
        identifiers: item_identifiers(answer_items(document)),
        malformed: malformed_urls(answer_items(document)),
    }
}

/// What a reply to the catalog query yields. A refusal yields an empty
/// answer and is no failure; a body has to be a JSON document.
pub open spec fn fetch_outcome(reply: HttpReply) -> Result<AnswerView, EnrichmentError> {
    match reply {
        HttpReply::Body(body) => match json_of_text(body@) {
            Some(document) => Ok(answer_of(document)),
            None => Err(EnrichmentError::MalformedAnswer),
        },
        HttpReply::Rejected => Ok(AnswerView { identifiers: Seq::empty(), malformed: Seq::empty() }),
        HttpReply::Failed => Err(EnrichmentError::Network),
    }
}

/// Whether `result` is the outcome `expected`.
pub open spec fn is_fetch_outcome(
    result: Result<Answer, EnrichmentError>,
    expected: Result<AnswerView, EnrichmentError>,
) -> bool {
    match result {
        Ok(answer) => expected == Ok::<AnswerView, EnrichmentError>(answer@),
        Err(failure) => expected == Err::<AnswerView, EnrichmentError>(failure),
    }
}

/// The query that asks the catalog for the variants of `canonical_name`.
pub fn catalog_url(canonical_name: &str) -> (url: String)
    ensures
        url@ == catalog_url_of(canonical_name@),
{
    let mut url = String::from_str(CATALOG_QUERY_BASE);
    url.append(canonical_name);
    url.append(CATALOG_QUERY_TAIL);
    url
}

/// What the address `url` says of an identifier.
pub fn read_url(url: &str) -> (reading: UrlReading)
    ensures
        reading == url_reading(url@),
{
    let address = chars_of(url);
    let prefix = chars_of(DETAILS_URL_PREFIX);
    if !starts_with(address.as_slice(), prefix.as_slice()) {
        return UrlReading::Unrelated;
    }
    match parse_u32_from(address.as_slice(), prefix.len()) {
        Some(identifier) => UrlReading::Identifier(identifier),
        None => if address.len() > prefix.len() {
            UrlReading::Malformed
        } else {
            UrlReading::Unrelated
        },
    }
}

/// The address of the second action of an item of the catalog's answer.
pub fn url_of_item(item: &Json) -> (found: Option<&str>)
    ensures
        match found {
            Some(url) => item_url(item@) == Some(url@),
            None => item_url(item@).is_none(),
        },
{
    let actions = match item.member(ACTIONS_FIELD) {
        Some(actions) => actions,
        None => { return None; },
    };
    let action = match actions.element(DETAILS_ACTION_INDEX) {
        Some(action) => action,
        None => { return None; },
    };
    if !action.is_object() {
        return None;
    }
    match action.member(URL_FIELD) {
        Some(address) => address.as_text(),
        None => None,
    }
}

/// What the catalog's answer holds.
pub fn read_answer(document: &Json) -> (answer: Answer)
    ensures
        answer@ == answer_of(document@),
{
    let mut identifiers: Vec<u32> = Vec::new();
    let mut malformed: Vec<String> = Vec::new();
    let ghost mut seen: Seq<Seq<char>> = Seq::empty();
    let listed = match document.member(ITEMS_FIELD) {
        Some(listed) => listed.as_array(),
        None => None,
    };
    let items = match listed {
        Some(items) => items,
        None => {
            let answer = Answer { identifiers, malformed };
            assert(answer@.malformed =~= Seq::empty());
            return answer;
        },
    };
    let ghost trees = trees_of(items@);
    let mut i: usize = 0;
    while i < items.len()
        invariant
            i <= items.len(),
            trees == trees_of(items@),
            identifiers@ == item_identifiers(trees.take(i as int)),
            seen == malformed_urls(trees.take(i as int)),
            seen.len() == malformed@.len(),
            forall|j: int| 0 <= j < seen.len() ==> seen[j] == #[trigger] malformed@[j]@,
        decreases items.len() - i,
    {
        proof {
            let longer = trees.take(i + 1);
            assert(longer.drop_last() =~= trees.take(i as int));
        }
        match url_of_item(&items[i]) {
            Some(url) => match read_url(url) {
                UrlReading::Identifier(identifier) => {
                    identifiers.push(identifier);
                },
                UrlReading::Malformed => {
                    malformed.push(url.to_owned());
                    proof {
                        seen = seen.push(url@);
                    }
                },
                UrlReading::Unrelated => {},
            },
            None => {},
        }
        i += 1;
    }
    assert(trees.take(items.len() as int) =~= trees);
    let answer = Answer { identifiers, malformed };
    assert(answer@.malformed =~= seen);
    answer
}

/// What a reply to the catalog query yields.
pub fn fetch_identifiers(reply: &HttpReply) -> (result: Result<Answer, EnrichmentError>)
    ensures
        is_fetch_outcome(result, fetch_outcome(*reply)),
{
    match reply {
        HttpReply::Body(body) => match parse_text(body.as_str()) {
            Some(document) => Ok(read_answer(&document)),
            None => Err(EnrichmentError::MalformedAnswer),
        },
        HttpReply::Rejected => {
            let answer = Answer { identifiers: Vec::new(), malformed: Vec::new() };
            assert(answer@.malformed =~= Seq::empty());
            Ok(answer)
        },
        HttpReply::Failed => Err(EnrichmentError::Network),
    }
}

} // verus!
