//! The language tags of an `Accept-Language` header, and the regions whose
//! privacy laws keep telemetry from being collected.

use vstd::prelude::*;
use crate::text::{to_upper, unicode_upper};

verus! {

/// The pattern of one entry of an `Accept-Language` header: a two-letter
/// lower-case language code (capture group 1), an optional upper-case
/// region and an optional quality weight.
pub const LANG_PATTERN: &'static str = r"([a-z]{2})(?:-[A-Z]{2})?(?:;q=\d+\.\d+)?";

/// The capture of one group in each successive match of a regular
/// expression in a text, or nothing when the expression does not compile.
pub uninterp spec fn regex_captures(pattern: Seq<char>, text: Seq<char>, group: usize) -> Option<Seq<Option<Seq<char>>>>;

/// The characters of each capture.
pub open spec fn capture_views(v: Seq<Option<String>>) -> Seq<Option<Seq<char>>> {
    v.map_values(|o: Option<String>| match o {
        Some(s) => Some(s@),
        None => None,
    })
}

/// Calls `regex::Regex::new(pattern)` and, when the pattern compiles,
/// `Regex::captures_iter(text)`, taking from each successive match the text
/// of capture group `group` (`None` where that group took no part in the
/// match). The result is taken to be `regex_captures` of the arguments;
/// the matching rules of the regex crate are not written out here. A
/// pattern that does not compile gives `None`.
#[verifier::external_body]
pub(crate) fn captures_of(pattern: &str, text: &str, group: usize) -> (r: Option<Vec<Option<String>>>)
    ensures
        match r {
            None => regex_captures(pattern@, text@, group) is None,
            Some(v) => regex_captures(pattern@, text@, group) == Some(capture_views(v@)),
        },
{
    match regex::Regex::new(pattern) {
        Ok(re) => {
            let mut out = Vec::new();
            for caps in re.captures_iter(text) {
                out.push(match caps.get(group) {
                    Some(m) => Some(m.as_str().to_string()),
                    None => None,
                });
            }
            Some(out)
        },
        Err(_) => None,
    }
}

/// Whether the two letters name a country of the EU or EEA, Switzerland,
/// Great Britain, or a country with comparable legislation (China, Russia,
/// Canada).
pub open spec fn code_pair(a: char, b: char) -> bool {
    ||| (a == 'A' && b == 'T')
    ||| (a == 'B' && b == 'E')
    ||| (a == 'B' && b == 'G')
    ||| (a == 'H' && b == 'R')
    ||| (a == 'C' && b == 'Y')
    ||| (a == 'C' && b == 'Z')
    ||| (a == 'D' && b == 'K')
    ||| (a == 'E' && b == 'E')
    ||| (a == 'F' && b == 'I')
    ||| (a == 'F' && b == 'R')
    ||| (a == 'D' && b == 'E')
    ||| (a == 'G' && b == 'R')
    ||| (a == 'H' && b == 'U')
    ||| (a == 'I' && b == 'S')
    ||| (a == 'I' && b == 'E')
    ||| (a == 'I' && b == 'T')
    ||| (a == 'L' && b == 'V')
    ||| (a == 'L' && b == 'I')
    ||| (a == 'L' && b == 'T')
    ||| (a == 'L' && b == 'U')
    ||| (a == 'M' && b == 'T')
    ||| (a == 'N' && b == 'L')
    ||| (a == 'N' && b == 'O')
    ||| (a == 'P' && b == 'L')
    ||| (a == 'P' && b == 'T')
    ||| (a == 'R' && b == 'O')
    ||| (a == 'S' && b == 'K')
    ||| (a == 'S' && b == 'I')
    ||| (a == 'E' && b == 'S')
    ||| (a == 'S' && b == 'E')
    ||| (a == 'C' && b == 'H')
    ||| (a == 'G' && b == 'B')
    ||| (a == 'C' && b == 'N')
    ||| (a == 'R' && b == 'U')
    ||| (a == 'C' && b == 'A')
}

/// Whether `s` is one of the region codes that keep telemetry off.
pub open spec fn is_gdpr_code(s: Seq<char>) -> bool {
    s.len() == 2 && code_pair(s[0], s[1])
}

/// Whether the two letters name a region whose laws keep telemetry off.
fn pair_is_code(a: char, b: char) -> (r: bool)
    ensures
        r == code_pair(a, b),
{
    (a == 'A' && b == 'T') ||
    (a == 'B' && b == 'E') ||
    (a == 'B' && b == 'G') ||
    (a == 'H' && b == 'R') ||
    (a == 'C' && b == 'Y') ||
    (a == 'C' && b == 'Z') ||
    (a == 'D' && b == 'K') ||
    (a == 'E' && b == 'E') ||
    (a == 'F' && b == 'I') ||
    (a == 'F' && b == 'R') ||
    (a == 'D' && b == 'E') ||
    (a == 'G' && b == 'R') ||
    (a == 'H' && b == 'U') ||
    (a == 'I' && b == 'S') ||
    (a == 'I' && b == 'E') ||
    (a == 'I' && b == 'T') ||
    (a == 'L' && b == 'V') ||
    (a == 'L' && b == 'I') ||
    (a == 'L' && b == 'T') ||
    (a == 'L' && b == 'U') ||
    (a == 'M' && b == 'T') ||
    (a == 'N' && b == 'L') ||
    (a == 'N' && b == 'O') ||
    (a == 'P' && b == 'L') ||
    (a == 'P' && b == 'T') ||
    (a == 'R' && b == 'O') ||
    (a == 'S' && b == 'K') ||
    (a == 'S' && b == 'I') ||
    (a == 'E' && b == 'S') ||
    (a == 'S' && b == 'E') ||
    (a == 'C' && b == 'H') ||
    (a == 'G' && b == 'B') ||
    (a == 'C' && b == 'N') ||
    (a == 'R' && b == 'U') ||
    (a == 'C' && b == 'A')
}

/// Whether `s` is one of the region codes that keep telemetry off.
pub fn gdpr_code(s: &str) -> (r: bool)
    ensures
        r == is_gdpr_code(s@),
{
    if s.unicode_len() != 2 {
        return false;
    }
    pair_is_code(s.get_char(0), s.get_char(1))
}

/// Whether the upper-cased language tag names a region that keeps
/// telemetry off.
pub open spec fn tag_is_gdpr(tag: Seq<char>) -> bool {
    is_gdpr_code(unicode_upper(tag))
}

/// Whether the upper-cased language tag names a region that keeps
/// telemetry off.
pub fn tag_gdpr(tag: &str) -> (r: bool)
    ensures
        r == tag_is_gdpr(tag@),
{
    let upper = to_upper(tag);
    gdpr_code(upper.as_str())
}

/// The characters of a header value, if there is one.
pub open spec fn header_view(header: Option<&str>) -> Option<Seq<char>> {
    match header {
        Some(h) => Some(h@),
        None => None,
    }
}

/// The language tags that the header's entries capture, when the pattern
/// compiles.
pub open spec fn header_tags(header: Seq<char>) -> Option<Seq<Option<Seq<char>>>> {
    regex_captures(LANG_PATTERN@, header, 1)
}

/// The region codes that keep telemetry off are exactly these 35: the
/// countries of the EU and EEA, Switzerland, Great Britain, and China,
/// Russia and Canada.
#[verifier::rlimit(50)]
pub proof fn lemma_gdpr_codes_are_the_listed_regions(s: Seq<char>)
    ensures
        is_gdpr_code(s) <==> (
               s == "AT"@
            || s == "BE"@
            || s == "BG"@
            || s == "HR"@
            || s == "CY"@
            || s == "CZ"@
            || s == "DK"@
            || s == "EE"@
            || s == "FI"@
            || s == "FR"@
            || s == "DE"@
            || s == "GR"@
            || s == "HU"@
            || s == "IS"@
            || s == "IE"@
            || s == "IT"@
            || s == "LV"@
            || s == "LI"@
            || s == "LT"@
            || s == "LU"@
            || s == "MT"@
            || s == "NL"@
            || s == "NO"@
            || s == "PL"@
            || s == "PT"@
            || s == "RO"@
            || s == "SK"@
            || s == "SI"@
            || s == "ES"@
            || s == "SE"@
            || s == "CH"@
            || s == "GB"@
            || s == "CN"@
            || s == "RU"@
            || s == "CA"@
        ),
{
    reveal_strlit("AT");
    reveal_strlit("BE");
    reveal_strlit("BG");
    reveal_strlit("HR");
    reveal_strlit("CY");
    reveal_strlit("CZ");
    reveal_strlit("DK");
    reveal_strlit("EE");
    reveal_strlit("FI");
    reveal_strlit("FR");
    reveal_strlit("DE");
    reveal_strlit("GR");
    reveal_strlit("HU");
    reveal_strlit("IS");
    reveal_strlit("IE");
    reveal_strlit("IT");
    reveal_strlit("LV");
    reveal_strlit("LI");
    reveal_strlit("LT");
    reveal_strlit("LU");
    reveal_strlit("MT");
    reveal_strlit("NL");
    reveal_strlit("NO");
    reveal_strlit("PL");
    reveal_strlit("PT");
    reveal_strlit("RO");
    reveal_strlit("SK");
    reveal_strlit("SI");
    reveal_strlit("ES");
    reveal_strlit("SE");
    reveal_strlit("CH");
    reveal_strlit("GB");
    reveal_strlit("CN");
    reveal_strlit("RU");
    reveal_strlit("CA");
    if is_gdpr_code(s) {
            if s[0] == 'A' && s[1] == 'T' {
                assert(s =~= "AT"@);
            } else if s[0] == 'B' && s[1] == 'E' {
                assert(s =~= "BE"@);
            } else if s[0] == 'B' && s[1] == 'G' {
                assert(s =~= "BG"@);
            } else if s[0] == 'H' && s[1] == 'R' {
                assert(s =~= "HR"@);
            } else if s[0] == 'C' && s[1] == 'Y' {
                assert(s =~= "CY"@);
            } else if s[0] == 'C' && s[1] == 'Z' {
                assert(s =~= "CZ"@);
            } else if s[0] == 'D' && s[1] == 'K' {
                assert(s =~= "DK"@);
            } else if s[0] == 'E' && s[1] == 'E' {
                assert(s =~= "EE"@);
            } else if s[0] == 'F' && s[1] == 'I' {
                assert(s =~= "FI"@);
            } else if s[0] == 'F' && s[1] == 'R' {
                assert(s =~= "FR"@);
            } else if s[0] == 'D' && s[1] == 'E' {
                assert(s =~= "DE"@);
            } else if s[0] == 'G' && s[1] == 'R' {
                assert(s =~= "GR"@);
            } else if s[0] == 'H' && s[1] == 'U' {
                assert(s =~= "HU"@);
            } else if s[0] == 'I' && s[1] == 'S' {
                assert(s =~= "IS"@);
            } else if s[0] == 'I' && s[1] == 'E' {
                assert(s =~= "IE"@);
            } else if s[0] == 'I' && s[1] == 'T' {
                assert(s =~= "IT"@);
            } else if s[0] == 'L' && s[1] == 'V' {
                assert(s =~= "LV"@);
            } else if s[0] == 'L' && s[1] == 'I' {
                assert(s =~= "LI"@);
            } else if s[0] == 'L' && s[1] == 'T' {
                assert(s =~= "LT"@);
            } else if s[0] == 'L' && s[1] == 'U' {
                assert(s =~= "LU"@);
            } else if s[0] == 'M' && s[1] == 'T' {
                assert(s =~= "MT"@);
            } else if s[0] == 'N' && s[1] == 'L' {
                assert(s =~= "NL"@);
            } else if s[0] == 'N' && s[1] == 'O' {
                assert(s =~= "NO"@);
            } else if s[0] == 'P' && s[1] == 'L' {
                assert(s =~= "PL"@);
            } else if s[0] == 'P' && s[1] == 'T' {
                assert(s =~= "PT"@);
            } else if s[0] == 'R' && s[1] == 'O' {
                assert(s =~= "RO"@);
            } else if s[0] == 'S' && s[1] == 'K' {
                assert(s =~= "SK"@);
            } else if s[0] == 'S' && s[1] == 'I' {
                assert(s =~= "SI"@);
            } else if s[0] == 'E' && s[1] == 'S' {
                assert(s =~= "ES"@);
            } else if s[0] == 'S' && s[1] == 'E' {
                assert(s =~= "SE"@);
            } else if s[0] == 'C' && s[1] == 'H' {
                assert(s =~= "CH"@);
            } else if s[0] == 'G' && s[1] == 'B' {
                assert(s =~= "GB"@);
            } else if s[0] == 'C' && s[1] == 'N' {
                assert(s =~= "CN"@);
            } else if s[0] == 'R' && s[1] == 'U' {
                assert(s =~= "RU"@);
            } else if s[0] == 'C' && s[1] == 'A' {
                assert(s =~= "CA"@);
            }
    }
}

} // verus!
