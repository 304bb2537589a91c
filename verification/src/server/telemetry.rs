//! Screening of telemetry requests by the language of the client: any
//! language tag of the `Accept-Language` header can screen a request out.

use vstd::prelude::*;
use crate::api::errors::ApiErrors;
use crate::api::gdpr::{first_tag_at, first_tag_is_gdpr};
use crate::language::{LANG_PATTERN, capture_views, captures_of, header_tags, header_view, tag_gdpr, tag_is_gdpr};

verus! {

/// Whether some language tag of the header names a region with GDPR or
/// GDPR-adjacent legislation.
pub open spec fn some_tag_is_gdpr(header: Option<Seq<char>>) -> bool {
    match header {
        None => false,
        Some(h) => match header_tags(h) {
            None => false,
            Some(tags) => any_capture_is_gdpr(tags),
        },
    }
}

/// Whether some captured tag names a region with GDPR or GDPR-adjacent
/// legislation.
pub open spec fn any_capture_is_gdpr(tags: Seq<Option<Seq<char>>>) -> bool {
    exists|i: int| 0 <= i < tags.len() && #[trigger] tags[i] is Some && tag_is_gdpr(tags[i]->0)
}

/// Whether some tag among the captures of the header's entries (`None`
/// for an entry that captured none) names a region with GDPR or
/// GDPR-adjacent legislation.
pub fn some_tag_gdpr(tags: &Vec<Option<String>>) -> (r: bool)
    ensures
        r == any_capture_is_gdpr(capture_views(tags@)),
{
    let ghost views = capture_views(tags@);
    let n = tags.len();
    let mut i: usize = 0;
    while i < n
        invariant
            n == tags@.len(),
            views == capture_views(tags@),
            views.len() == n,
            i <= n,
            forall|j: int| 0 <= j < i ==> !(#[trigger] views[j] is Some && tag_is_gdpr(views[j]->0)),
        decreases n - i,
    {
        match &tags[i] {
            Some(tag) => {
                assert(views[i as int] == Some(tag@));
                if tag_gdpr(tag.as_str()) {
                    return true;
                }
            },
            None => {
                assert(views[i as int] is None);
            },
        }
        i = i + 1;
    }
    false
}

/// Whether a request whose `Accept-Language` header reads `accept_language`
/// (`None` when the header is missing or not visible ASCII) names, in any
/// of its language tags, a region with GDPR or GDPR-adjacent legislation.
pub fn is_gdpr(accept_language: Option<&str>) -> (r: bool)
    ensures
        r == some_tag_is_gdpr(header_view(accept_language)),
{
    match accept_language {
        None => false,
        Some(header) => match captures_of(LANG_PATTERN, header, 1) {
            None => false,
            Some(tags) => some_tag_gdpr(&tags),
        },
    }
}

/// A request that the API service screens out by its first language tag
/// is screened out by the server's any-tag rule too.
pub proof fn lemma_first_tag_rule_implies_any_tag_rule(header: Option<Seq<char>>)
    requires
        first_tag_is_gdpr(header),
    ensures
        some_tag_is_gdpr(header),
{
    let h = header->0;
    let tags = header_tags(h)->0;
    let i = choose|i: int| #[trigger] first_tag_at(tags, i) && tag_is_gdpr(tags[i]->0);
    assert(tags[i] is Some);
}

/// The answer to a telemetry request: refused with `GDPRRegion` when the
/// client's languages name such a region, accepted otherwise.
pub fn screen_telemetry(accept_language: Option<&str>) -> (r: Result<(), ApiErrors<'static>>)
    ensures
        r is Err <==> some_tag_is_gdpr(header_view(accept_language)),
        r matches Err(e) ==> e is GDPRRegion,
{
    if is_gdpr(accept_language) {
        Err(ApiErrors::GDPRRegion)
    } else {
        Ok(())
    }
}

} // verus!
