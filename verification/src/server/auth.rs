//! Whether a request carries a signed-in identity.

use vstd::prelude::*;

verus! {

#[verifier::external_type_specification]
#[verifier::external_body]
pub struct ExIdentity(actix_identity::Identity);

/// Whether the user is signed in: `NoLI` when not logged in, `Success`
/// with the identity otherwise.
pub enum AuthChecker {
    NoLI,
    Success(actix_identity::Identity),
}

impl AuthChecker {
    /// `Ok(Success(id))` when the request carries the identity `id`,
    /// `Err(NoLI)` when it carries none.
    pub fn check_auth(identity: Option<actix_identity::Identity>) -> (r: Result<Self, Self>)
        ensures
            match identity {
                None => r matches Err(AuthChecker::NoLI),
                Some(id) => r matches Ok(AuthChecker::Success(found)) && found == id,
            },
    {
        match identity {
            None => Err(Self::NoLI),
            Some(id) => Ok(Self::Success(id)),
        }
    }
}

} // verus!
