//! Identifiers: the caller's identity as it arrives in a request, and the
//! fresh identifiers that new rows and blobs receive.

use vstd::prelude::*;
use crate::error::{AppError, ErrorView};
use crate::text::opt_text;

verus! {

/// What `uuid::Uuid::parse_str` makes of a text: the identifier's 128 bits,
/// or nothing where the text is no well-formed identifier.
pub uninterp spec fn parsed_uuid(text: Seq<char>) -> Option<u128>;

/// Calls `uuid::Uuid::parse_str` and hands back the identifier as an integer
/// (`Uuid::as_u128`). The result is a function of the text alone; which texts
/// are accepted is the outside parser's business and is not proved here.
#[verifier::external_body]
pub(crate) fn parse_uuid(text: &str) -> (id: Option<u128>)
    ensures
        id == parsed_uuid(text@),
{
    match uuid::Uuid::parse_str(text) {
        Ok(id) => Some(id.as_u128()),
        Err(_) => None,
    }
}

/// Calls `uuid::Uuid::now_v7` for a new time-ordered identifier. Nothing is
/// claimed of the value: it depends on the clock and on chance.
#[verifier::external_body]
pub(crate) fn fresh_uuid() -> (id: u128) {
    uuid::Uuid::now_v7().as_u128()
}

/// The caller's identity, given the identity header as it arrived: the
/// identifier where the header is present and well formed, else a
/// bad-request error.
pub open spec fn identity_of(header: Option<Seq<char>>) -> Result<u128, ErrorView> {
    match header {
        Some(text) => match parsed_uuid(text) {
            Some(id) => Ok(id),
            None => Err(ErrorView::BadRequest("Missing or invalid x-user-id header"@)),
        },
        None => Err(ErrorView::BadRequest("Missing or invalid x-user-id header"@)),
    }
}

/// The view of the outcome of reading the identity.
pub open spec fn identity_view(r: Result<u128, AppError>) -> Result<u128, ErrorView> {
    match r {
        Ok(id) => Ok(id),
        Err(e) => Err(e@),
    }
}

/// The identity that `parsed` stands for, `parsed` being what the parser
/// made of the header, if there was one.
pub fn identity_from(parsed: Option<Option<u128>>) -> (r: Result<u128, AppError>)
    ensures
        match parsed {
            Some(Some(id)) => r == Ok::<u128, AppError>(id),
            _ => r is Err && r->Err_0@ == ErrorView::BadRequest(
                "Missing or invalid x-user-id header"@,
            ),
        },
{
    match parsed {
        Some(Some(id)) => Ok(id),
        _ => Err(AppError::BadRequest("Missing or invalid x-user-id header".to_owned())),
    }
}

/// Reads the caller's identity from the identity header.
pub fn extract_user_id(header: &Option<String>) -> (r: Result<u128, AppError>)
    ensures
        identity_view(r) == identity_of(opt_text(*header)),
{
    let parsed = match header {
        Some(text) => Some(parse_uuid(text.as_str())),
        None => None,
    };
    identity_from(parsed)
}

} // verus!
