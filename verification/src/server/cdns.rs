//! The content delivery networks that links may point to.

use vstd::prelude::*;
use vstd::string::*;

verus! {

/// The allowed content delivery networks, by host name.
pub open spec fn allowed_hosts() -> Seq<Seq<char>> {
    seq!["example.com"@, "rust-lang.org"@, "docs.rs"@]
}

/// The allowed content delivery networks, by host name.
pub fn allowed_cdns() -> (r: Vec<String>)
    ensures
        r@.len() == allowed_hosts().len(),
        forall|i: int| 0 <= i < r@.len() ==> #[trigger] r@[i]@ == allowed_hosts()[i],
{
    let mut v: Vec<String> = Vec::new();
    v.push(String::from_str("example.com"));
    v.push(String::from_str("rust-lang.org"));
    v.push(String::from_str("docs.rs"));
    v
}

/// Walks the allowed networks; no check is made on any of them yet, so
/// nothing is decided.
pub fn check_url() {
    let cdns = allowed_cdns();
    let n = cdns.len();
    let mut i: usize = 0;
    while i < n
        invariant
            i <= n,
        decreases n - i,
    {
        i = i + 1;
    }
}

} // verus!
