//! The outcome of asking a deployment for a count.
//!
//! The caller sends the request. What comes back is judged here: an answer
//! gives a count only if its status is a success and its body holds a total
//! that is a count. Every other answer is a failure, and so is a request
//! that got no answer.

use crate::parse_json::{count_in_json, get_count_from_json, to_count, ParseError};
use vstd::prelude::*;

verus! {

/// Why asking a deployment gave no count.
#[derive(Debug, Clone, Copy, PartialEq, Eq, Structural)]
pub enum FetchError {
    /// The request got no answer, or the answer could not be read.
    Transport,
    /// The answer has this status, which is no success.
    Status(u16),
    /// The answer was a success but holds no count.
    Parse(ParseError),
}

/// Whether an HTTP status is a success.
pub open spec fn is_success(status: u16) -> bool {
    200 <= status <= 299
}

/// What an answer with this status and this body gives.
pub open spec fn count_in_answer(status: u16, body: Seq<char>) -> Result<u32, FetchError> {
    if !is_success(status) {
        Err(FetchError::Status(status))
    } else {
        match count_in_json(body) {
            Err(error) => Err(FetchError::Parse(error)),
            Ok(total) => if 0 <= total <= u32::MAX {
                Ok(total as u32)
            } else {
                Err(FetchError::Parse(ParseError::OutOfRange))
            },
        }
    }
}

/// The count that an answer gives, or the reason why it gives none.
pub fn count_in_response(status: u16, body: &str) -> (result: Result<u32, FetchError>)
    ensures
        result == count_in_answer(status, body@),
{
    if status < 200 || status > 299 {
        return Err(FetchError::Status(status));
    }
    let total = match get_count_from_json(body) {
        Ok(total) => total,
        Err(error) => {
            return Err(FetchError::Parse(error));
        },
    };
    match to_count(total) {
        Ok(count) => Ok(count),
        Err(error) => Err(FetchError::Parse(error)),
    }
}

/// An answer gives a count only as a success whose body holds that very
/// total: a failure of any sort never turns into a count.
pub proof fn lemma_count_is_the_total_in_the_body(status: u16, body: Seq<char>)
    ensures
        count_in_answer(status, body) matches Ok(count) ==> is_success(status) && count_in_json(
            body,
        ) == Ok::<i64, ParseError>(count as i64),
{
}

} // verus!
