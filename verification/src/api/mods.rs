//! The mods that the API service lists.

use vstd::prelude::*;
use crate::api::errors::ApiErrors;
use crate::text::str_eq;

verus! {

/// A published mod, as stored.
#[derive(Clone, Debug)]
pub struct Mod {
    pub id: i32,
    pub owner: String,
    pub name: String,
    pub icon: String,
    pub description: String,
    pub source: String,
    pub maven: String,
    pub license: String,
}

/// The owner of a mod that the request may add: the id of the signed-in
/// user. A request without an identity, or whose identity's id cannot be
/// read, is refused as unauthorized. `identity_id` is `None` without an
/// identity, else the outcome of reading its id.
pub fn mod_creator(identity_id: Option<Result<String, String>>) -> (r: Result<String, ApiErrors<'static>>)
    ensures
        match identity_id {
            Some(Ok(id)) => r matches Ok(owner) && owner@ == id@,
            _ => r matches Err(ApiErrors::Unauthorized),
        },
{
    match identity_id {
        Some(Ok(id)) => Ok(id),
        _ => Err(ApiErrors::Unauthorized),
    }
}

/// Whether the request may change a mod owned by `owner`: only when the
/// signed-in user's id is the owner; every other request is refused as
/// unauthorized.
pub fn may_edit_mod(identity_id: Option<Result<String, String>>, owner: &str) -> (r: Result<(), ApiErrors<'static>>)
    ensures
        r is Ok <==> (identity_id matches Some(Ok(id)) && id@ == owner@),
        r matches Err(e) ==> e is Unauthorized,
{
    match identity_id {
        Some(Ok(id)) => {
            if str_eq(id.as_str(), owner) {
                Ok(())
            } else {
                Err(ApiErrors::Unauthorized)
            }
        },
        _ => Err(ApiErrors::Unauthorized),
    }
}

} // verus!
