//! The environment variables, held in the deployment's secret store, that
//! the API service needs before it starts.

use vstd::prelude::*;

verus! {

#[verifier::external_type_specification]
#[verifier::external_body]
pub struct ExSecretStore(shuttle_runtime::SecretStore);

/// The keys of a secret store, each with its value.
pub uninterp spec fn secret_entries(store: shuttle_runtime::SecretStore) -> Map<Seq<char>, Seq<char>>;

/// Calls `SecretStore::get` (shuttle): the value stored under `key`, if
/// any. The store is a sorted map from keys to secret values and `get`
/// looks the key up in it, so the result is present exactly when the key
/// is, and is then the stored value.
#[verifier::external_body]
fn secret_get(store: &shuttle_runtime::SecretStore, key: &str) -> (r: Option<String>)
    ensures
        r is Some <==> secret_entries(*store).dom().contains(key@),
        r matches Some(v) ==> v@ == secret_entries(*store)[key@],
{
    store.get(key)
}

/// The name of the analytics key that the API service needs.
pub const ANALYTICS_KEY: &'static str = "ANALYTICS_KEY";

/// Whether the secret store holds a value under `name`.
pub fn has_var(secrets: &shuttle_runtime::SecretStore, name: &str) -> (r: bool)
    ensures
        r == secret_entries(*secrets).dom().contains(name@),
{
    secret_get(secrets, name).is_some()
}

/// Checks that every variable the service needs is present: `Ok` when
/// all are, otherwise `Err` with the names of those that are missing.
pub fn check_env_vars(secrets: &shuttle_runtime::SecretStore) -> (r: Result<(), Vec<&'static str>>)
    ensures
        r is Ok <==> secret_entries(*secrets).dom().contains(ANALYTICS_KEY@),
        r matches Err(missing) ==> missing@.len() == 1 && missing@[0]@ == ANALYTICS_KEY@,
{
    let mut missing_vector: Vec<&'static str> = Vec::new();
    if !has_var(secrets, ANALYTICS_KEY) {
        missing_vector.push(ANALYTICS_KEY);
    }
    if missing_vector.len() == 0 {
        Ok(())
    } else {
        Err(missing_vector)
    }
}

} // verus!
