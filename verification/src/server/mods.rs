//! The mods and notes that the account server stores.

use vstd::prelude::*;

verus! {

/// A published mod, as stored.
#[derive(Clone, Debug)]
pub struct Mod {
    pub id: i32,
    pub name: String,
    pub icon: String,
    pub description: String,
    pub download: String,
    pub owner: String,
}

/// A stored note.
#[derive(Clone, Debug)]
pub struct Todo {
    pub id: i32,
    pub note: String,
}

} // verus!
