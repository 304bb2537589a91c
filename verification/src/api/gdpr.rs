//! Screening of telemetry requests by the language of the client: the
//! first language tag of the `Accept-Language` header decides.

use vstd::prelude::*;
use crate::api::errors::ApiErrors;
use crate::language::{LANG_PATTERN, capture_views, captures_of, header_tags, header_view, tag_gdpr, tag_is_gdpr};

verus! {

/// Whether `i` is the first position at which a tag was captured.
pub open spec fn first_tag_at(tags: Seq<Option<Seq<char>>>, i: int) -> bool {
    &&& 0 <= i < tags.len()
    &&& tags[i] is Some
    &&& forall|j: int| 0 <= j < i ==> tags[j] is None
}

/// Whether the first tag that was captured names a region with GDPR or
/// GDPR-adjacent legislation (false when no tag was captured).
pub open spec fn first_capture_is_gdpr(tags: Seq<Option<Seq<char>>>) -> bool {
    exists|i: int| #[trigger] first_tag_at(tags, i) && tag_is_gdpr(tags[i]->0)
}

/// Whether the header's first language tag names a region with GDPR or
/// GDPR-adjacent legislation. A request without a readable header, or with
/// no tag in it, is not screened out.
pub open spec fn first_tag_is_gdpr(header: Option<Seq<char>>) -> bool {
    match header {
        None => false,
        Some(h) => match header_tags(h) {
            None => false,
            Some(tags) => first_capture_is_gdpr(tags),
        },
    }
}

/// Whether the first tag among the captures of the header's entries
/// (`None` for an entry that captured none) names a region with GDPR or
/// GDPR-adjacent legislation.
pub fn first_tag_gdpr(tags: &Vec<Option<String>>) -> (r: bool)
    ensures
        r == first_capture_is_gdpr(capture_views(tags@)),
{
    let ghost views = capture_views(tags@);
    let n = tags.len();
    let mut i: usize = 0;
    while i < n
        invariant
            n == tags@.len(),
            views == capture_views(tags@),
            views.len() == n,
            i <= n,
            forall|j: int| 0 <= j < i ==> views[j] is None,
        decreases n - i,
    {
        match &tags[i] {
            Some(tag) => {
                let r = tag_gdpr(tag.as_str());
                assert(views[i as int] == Some(tag@));
                assert(first_tag_at(views, i as int));
                proof {
                    assert forall|k: int| #[trigger] first_tag_at(views, k) implies k == i by {
                        if k > i {
                            assert(views[i as int] is None);
                        }
                    }
                }
                return r;
            },
            None => {},
        }
        i = i + 1;
    }
    proof {
        assert forall|k: int| !#[trigger] first_tag_at(views, k) by {
            if 0 <= k < views.len() {
                assert(views[k] is None);
            }
        }
    }
    false
}

/// Whether a request whose `Accept-Language` header reads `accept_language`
/// (`None` when the header is missing or not visible ASCII) comes from a
/// region with GDPR or GDPR-adjacent legislation, judged by the first
/// language tag of the header.
pub fn is_gdpr(accept_language: Option<&str>) -> (r: bool)
    ensures
        r == first_tag_is_gdpr(header_view(accept_language)),
{
    match accept_language {
        None => false,
        Some(header) => match captures_of(LANG_PATTERN, header, 1) {
            None => false,
            Some(tags) => first_tag_gdpr(&tags),
        },
    }
}

/// The decision of the GDPR layer in front of the telemetry routes: a
/// request whose first language tag names a region with GDPR or
/// GDPR-adjacent legislation is answered with `GDPRRegion`; every other
/// request, one without a readable header included, is let through (`Ok`).
pub fn gdpr_gate(accept_language: Option<&str>) -> (r: Result<(), ApiErrors<'static>>)
    ensures
        r is Ok <==> !first_tag_is_gdpr(header_view(accept_language)),
        r matches Err(e) ==> e is GDPRRegion,
{
    if is_gdpr(accept_language) {
        Err(ApiErrors::GDPRRegion)
    } else {
        Ok(())
    }
}

} // verus!
