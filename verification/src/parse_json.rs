//! Reading the total record count out of a catalog response.
//!
//! A response is a JSON object. Its member `meta` is an object whose member
//! `pages` is an object whose member `total_count` is the count:
//!
//! ```text
//! { "meta": { "pages": { "total_count": 3665491 } } }
//! ```
//!
//! Other members, at any level, are ignored; where a key occurs twice in one
//! object, its last member counts. The text is parsed by `serde_json`. What
//! this module proves is how the count is found in the parsed document, and
//! which error is returned when it is not found.
//!
//! A count is a number of records: it is never negative, and it has 32 bits.
//! A total outside that range is an error, never another count.

use vstd::prelude::*;

verus! {

#[verifier::external_type_specification]
#[verifier::external_body]
pub struct ExJsonValue(serde_json::Value);

#[verifier::external_type_specification]
#[verifier::external_body]
pub struct ExJsonError(serde_json::Error);

/// The document that `serde_json::from_str` reads from `text`, or `None`
/// where it reports an error.
pub uninterp spec fn json_document(text: Seq<char>) -> Option<serde_json::Value>;

/// The members of a JSON object, by key. A value that is no object has no
/// members.
pub uninterp spec fn json_members(value: serde_json::Value) -> Map<Seq<char>, serde_json::Value>;

/// The integer that `serde_json::Value::as_i64` finds in a JSON value, or
/// `None` where it finds none.
pub uninterp spec fn json_integer(value: serde_json::Value) -> Option<i64>;

/// Calls `serde_json::from_str` to read one `serde_json::Value` from the
/// whole of `text`. The contract only names the outcome: the same text gives
/// the same document or the same refusal.
#[verifier::external_body]
fn parse_document(text: &str) -> (result: Result<serde_json::Value, serde_json::Error>)
    ensures
        match result {
            Ok(document) => json_document(text@) == Some(document),
            Err(_) => json_document(text@) is None,
        },
{
    serde_json::from_str::<serde_json::Value>(text)
}

/// Calls `serde_json::Value::get` with a string key: the member of that key
/// where `value` is an object that has one, and `None` otherwise.
#[verifier::external_body]
fn member<'a>(value: &'a serde_json::Value, key: &str) -> (result: Option<&'a serde_json::Value>)
    ensures
        match result {
            Some(found) => json_members(*value).dom().contains(key@) && json_members(
                *value,
            )[key@] == *found,
            None => !json_members(*value).dom().contains(key@),
        },
{
    value.get(key)
}

/// Calls `serde_json::Value::as_i64`: the number that `value` holds where it
/// is an integer that fits in an `i64`, and `None` otherwise.
#[verifier::external_body]
fn integer(value: &serde_json::Value) -> (result: Option<i64>)
    ensures
        result == json_integer(*value),
{
    value.as_i64()
}

/// The member of `value` under `key`, where `value` is an object that has
/// one.
pub open spec fn member_of(value: Option<serde_json::Value>, key: Seq<char>) -> Option<
    serde_json::Value,
> {
    match value {
        Some(object) => if json_members(object).dom().contains(key) {
            Some(json_members(object)[key])
        } else {
            None
        },
        None => None,
    }
}

/// The integer at `meta.pages.total_count` in `document`, if there is one.
pub open spec fn total_count_in(document: serde_json::Value) -> Option<i64> {
    match member_of(member_of(member_of(Some(document), "meta"@), "pages"@), "total_count"@) {
        Some(count) => json_integer(count),
        None => None,
    }
}

/// Why a response gave no count.
#[derive(Debug, Clone, Copy, PartialEq, Eq, Structural)]
pub enum ParseError {
    /// The text is not well-formed JSON.
    Malformed,
    /// The document has no integer at `meta.pages.total_count`.
    MissingCount,
    /// The total is negative or too large for a count.
    OutOfRange,
}

/// The count, or the error, that the text of a response gives.
pub open spec fn count_in_json(text: Seq<char>) -> Result<i64, ParseError> {
    match json_document(text) {
        None => Err(ParseError::Malformed),
        Some(document) => match total_count_in(document) {
            Some(count) => Ok(count),
            None => Err(ParseError::MissingCount),
        },
    }
}

/// The pagination section of a response.
pub struct Pages {
    total_count: i64,
}

/// The metadata section of a response.
pub struct Meta {
    pages: Pages,
}

/// A catalog response, as far as the count needs it.
pub struct Response {
    meta: Meta,
}

impl Pages {
    pub closed spec fn spec_total_count(&self) -> i64 {
        self.total_count
    }

    /// The number of records that match the search.
    #[verifier::when_used_as_spec(spec_total_count)]
    pub fn total_count(&self) -> (count: i64)
        ensures
            count == self.spec_total_count(),
    {
        self.total_count
    }
}

impl Meta {
    pub closed spec fn spec_pages(&self) -> &Pages {
        &self.pages
    }

    /// The pagination section.
    #[verifier::when_used_as_spec(spec_pages)]
    pub fn pages(&self) -> (pages: &Pages)
        ensures
            pages == self.spec_pages(),
    {
        &self.pages
    }
}

impl Response {
    pub closed spec fn spec_meta(&self) -> &Meta {
        &self.meta
    }

    /// The metadata section.
    #[verifier::when_used_as_spec(spec_meta)]
    pub fn meta(&self) -> (meta: &Meta)
        ensures
            meta == self.spec_meta(),
    {
        &self.meta
    }

    /// The response that `document` holds: `Some` exactly where the document
    /// has an integer at `meta.pages.total_count`.
    pub fn from_document(document: &serde_json::Value) -> (result: Option<Response>)
        ensures
            match result {
                Some(response) => total_count_in(*document) == Some(
                    response.meta().pages().total_count(),
                ),
                None => total_count_in(*document) is None,
            },
    {
        let meta = match member(document, "meta") {
            Some(meta) => meta,
            None => {
                return None;
            },
        };
        let pages = match member(meta, "pages") {
            Some(pages) => pages,
            None => {
                return None;
            },
        };
        let total_count = match member(pages, "total_count") {
            Some(total_count) => total_count,
            None => {
                return None;
            },
        };
        match integer(total_count) {
            Some(count) => Some(Response { meta: Meta { pages: Pages { total_count: count } } }),
            None => None,
        }
    }
}

/// Reads the total record count out of the text of a response.
pub fn get_count_from_json(json_data: &str) -> (result: Result<i64, ParseError>)
    ensures
        result == count_in_json(json_data@),
{
    match parse_document(json_data) {
        Err(_) => Err(ParseError::Malformed),
        Ok(document) => match Response::from_document(&document) {
            Some(response) => Ok(response.meta.pages.total_count),
            None => Err(ParseError::MissingCount),
        },
    }
}

/// Turns the total of a response into a count. A total that is no count is
/// refused.
pub fn to_count(total: i64) -> (count: Result<u32, ParseError>)
    ensures
        match count {
            Ok(value) => 0 <= total <= u32::MAX && value == total,
            Err(error) => error == ParseError::OutOfRange && !(0 <= total <= u32::MAX),
        },
{
    if 0 <= total && total <= 4_294_967_295 {
        Ok(total as u32)
    } else {
        Err(ParseError::OutOfRange)
    }
}

} // verus!
