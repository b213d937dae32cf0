//! The identifier under which this tool is registered with the
//! authorization server.

use crate::error::{LoginError, LoginErrorView};
use vstd::prelude::*;
use vstd::string::*;

verus! {

/// The client identifier registered in the backend of the cloud.
pub const SPIN_CLIENT_ID: &'static str = "583e63e9-461f-4fbe-a246-23e0fb1cad10";

/// The message where the client identifier is no UUID.
pub const INVALID_CLIENT_ID: &'static str = "The client identifier is not a valid UUID";

/// `uuid::Error`, what the parser of UUIDs reports.
#[verifier::external_type_specification]
#[verifier::external_body]
pub struct ExUuidError(uuid::Error);

/// The 128 bits of the UUID that `uuid::Uuid::parse_str` reads from `text`,
/// `None` where it reports an error.
pub uninterp spec fn uuid_value(text: Seq<char>) -> Option<u128>;

/// `uuid::Uuid::parse_str`, the UUID handed on as the number that
/// `Uuid::as_u128` gives for it.
#[verifier::external_body]
fn parse_uuid(text: &str) -> (parsed: Result<u128, uuid::Error>)
    ensures
        match parsed {
            Ok(value) => uuid_value(text@) == Some(value),
            Err(_) => uuid_value(text@) is None,
        },
{
    match uuid::Uuid::parse_str(text) {
        Ok(id) => Ok(id.as_u128()),
        Err(error) => Err(error),
    }
}

/// The client identifier that `value` stands for, or the error about a text
/// that is no UUID.
pub open spec fn client_id_of(value: Option<u128>) -> Result<u128, LoginErrorView> {
    match value {
        Some(id) => Ok(id),
        None => Err(LoginErrorView::Boundary(INVALID_CLIENT_ID@)),
    }
}

/// Reads `text` as the UUID of a client.
pub fn parse_client_id(text: &str) -> (id: Result<u128, LoginError>)
    ensures
        match id {
            Ok(id) => client_id_of(uuid_value(text@)) == Ok::<u128, LoginErrorView>(id),
            Err(error) => client_id_of(uuid_value(text@)) == Err::<u128, LoginErrorView>(error@),
        },
{
    match parse_uuid(text) {
        Ok(id) => Ok(id),
        Err(_) => Err(LoginError::Boundary(String::from_str(INVALID_CLIENT_ID))),
    }
}

/// The identifier of this tool as a client of the authorization server.
pub fn client_id() -> (id: Result<u128, LoginError>)
    ensures
        match id {
            Ok(id) => client_id_of(uuid_value(SPIN_CLIENT_ID@)) == Ok::<u128, LoginErrorView>(id),
            Err(error) => client_id_of(uuid_value(SPIN_CLIENT_ID@)) == Err::<u128, LoginErrorView>(
                error@,
            ),
        },
{
    parse_client_id(SPIN_CLIENT_ID)
}

} // verus!
