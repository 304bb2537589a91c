//! Checks of a new account's username and password.

use vstd::prelude::*;
use vstd::string::*;
use crate::server::errors::ApiErrors;
use crate::text::{contains_substring, has_prefix, has_substring, to_upper, unicode_upper};

verus! {

/// The outcome of checking a username.
#[derive(Debug)]
pub enum UsernameResult {
    DatabaseError(String),
    Taken,
    FowlLanguage,
    SqlInjection,
    Passed,
    UnhandledResult,
}

/// The username outcome that an error of the server turns into: a
/// database error keeps its message, every other error is unhandled.
pub open spec fn username_result_of(error: ApiErrors) -> UsernameResult {
    match error {
        ApiErrors::DatabaseError(msg) => UsernameResult::DatabaseError(msg),
        _ => UsernameResult::UnhandledResult,
    }
}

impl From<ApiErrors> for UsernameResult {
    fn from(error: ApiErrors) -> (r: Self) {
        match error {
            ApiErrors::DatabaseError(msg) => UsernameResult::DatabaseError(msg),
            _ => UsernameResult::UnhandledResult,
        }
    }
}

impl vstd::std_specs::convert::FromSpecImpl<ApiErrors> for UsernameResult {
    open spec fn obeys_from_spec() -> bool {
        true
    }

    open spec fn from_spec(error: ApiErrors) -> Self {
        username_result_of(error)
    }
}

/// A word list of the profanity filter.
#[derive(Clone, Copy, Debug, PartialEq, Eq, Structural)]
pub enum WordList {
    Standard,
    Sex,
}

/// Whether the profanity filter finds a word of `list` in `text`.
pub uninterp spec fn censor_flags(list: WordList, text: Seq<char>) -> bool;

/// Calls `Censor::check` (censor) on the `Standard` or the `Sex` word
/// list: whether the text holds a censored word of that list, after the
/// crate's lower-casing, character aliasing and removal of spaces and
/// symbols. The result is taken to be `censor_flags` of the arguments; the
/// word lists and the matching rules are not written out here.
#[verifier::external_body]
fn censor_check(list: WordList, text: &str) -> (r: bool)
    ensures
        r == censor_flags(list, text@),
{
    match list {
        WordList::Standard => censor::Censor::Standard.check(text),
        WordList::Sex => censor::Censor::Sex.check(text),
    }
}

/// The words that mark a username as an attempt at SQL injection.
pub open spec fn sql_keywords() -> Seq<Seq<char>> {
    seq!["SELECT"@, "INSERT"@, "UPDATE"@, "DELETE"@, "DROP"@, "ALTER"@, "UNION"@, "JOIN"@, "FROM"@, "WHERE"@, "HAVING"@, "OR"@, "AND"@, "LIKE"@, "GROUP"@, "ORDER"@, "BY"@, "EXEC"@, "EXECUTE"@, "DECLARE"@, "TRUNCATE"@, "RENAME"@, "CREATE"@, "TABLE"@, "INDEX"@, "VIEW"@, "PROCEDURE"@, "FUNCTION"@]
}

/// Whether the text holds one of the SQL keywords.
pub open spec fn has_sql_keyword(text: Seq<char>) -> bool {
    exists|i: int| 0 <= i < sql_keywords().len() && has_substring(text, #[trigger] sql_keywords()[i])
}

/// The verdict on a username, given whether the database already holds it
/// (`None` when that could not be read): taken, profane, holding an SQL
/// keyword once upper-cased, or passed, checked in that order.
pub open spec fn username_verdict(username: Seq<char>, exists: Option<bool>) -> Result<UsernameResult, UsernameResult> {
    if exists == Some(true) {
        Err(UsernameResult::Taken)
    } else if censor_flags(WordList::Sex, username) || censor_flags(WordList::Standard, username) {
        Err(UsernameResult::FowlLanguage)
    } else if has_sql_keyword(unicode_upper(username)) {
        Err(UsernameResult::SqlInjection)
    } else {
        Ok(UsernameResult::Passed)
    }
}

fn sql_keyword_list() -> (v: Vec<&'static str>)
    ensures
        v@.len() == sql_keywords().len(),
        forall|i: int| 0 <= i < v@.len() ==> #[trigger] v@[i]@ == sql_keywords()[i],
{
    let v = vec!["SELECT", "INSERT", "UPDATE", "DELETE", "DROP", "ALTER", "UNION", "JOIN", "FROM", "WHERE", "HAVING", "OR", "AND", "LIKE", "GROUP", "ORDER", "BY", "EXEC", "EXECUTE", "DECLARE", "TRUNCATE", "RENAME", "CREATE", "TABLE", "INDEX", "VIEW", "PROCEDURE", "FUNCTION"];
    assert(v@.len() == sql_keywords().len());
    v
}

/// Whether the text holds one of the SQL keywords.
pub fn holds_sql_keyword(text: &str) -> (r: bool)
    ensures
        r == has_sql_keyword(text@),
{
    let keywords = sql_keyword_list();
    let n = keywords.len();
    let mut i: usize = 0;
    while i < n
        invariant
            n == keywords@.len(),
            n == sql_keywords().len(),
            forall|k: int| 0 <= k < n ==> #[trigger] keywords@[k]@ == sql_keywords()[k],
            i <= n,
            forall|k: int| 0 <= k < i ==> !has_substring(text@, #[trigger] sql_keywords()[k]),
        decreases n - i,
    {
        if contains_substring(text, keywords[i]) {
            assert(keywords@[i as int]@ == sql_keywords()[i as int]);
            return true;
        }
        i = i + 1;
    }
    false
}

impl UsernameResult {
    /// Checks a username for a new account, given whether the database
    /// already holds it (`None` when the lookup failed, which lets the check
    /// go on): `Err(Taken)`, `Err(FowlLanguage)`, `Err(SqlInjection)`, or
    /// `Ok(Passed)`.
    pub fn username_check(username: &str, exists: Option<bool>) -> (r: Result<UsernameResult, UsernameResult>)
        ensures
            r == username_verdict(username@, exists),
    {
        match exists {
            Some(true) => {
                return Err(UsernameResult::Taken);
            },
            _ => {},
        }
        if censor_check(WordList::Sex, username) || censor_check(WordList::Standard, username) {
            return Err(UsernameResult::FowlLanguage);
        }
        let upper = to_upper(username);
        if holds_sql_keyword(upper.as_str()) {
            return Err(UsernameResult::SqlInjection);
        }
        Ok(UsernameResult::Passed)
    }
}

/// The kind of password hash that a client sent.
#[derive(PartialEq, Eq, Structural, Debug, Clone, Copy)]
pub enum PasswordResult {
    SHA1,
    SHA256,
    SHA512,
    Argon2,
    UnknownHash,
}

/// Whether `c` is a hexadecimal digit, in either case.
pub open spec fn is_hex_digit(c: char) -> bool {
    ('0' <= c && c <= '9') || ('a' <= c && c <= 'f') || ('A' <= c && c <= 'F')
}

/// Whether every character of `s` is a hexadecimal digit.
pub open spec fn all_hex(s: Seq<char>) -> bool {
    forall|i: int| 0 <= i < s.len() ==> #[trigger] is_hex_digit(s[i])
}

/// The kind of hash that a password is taken for: a hexadecimal string of
/// 40, 64 or 128 digits is a SHA-1, SHA-256 or SHA-512 digest; anything
/// else is unknown.
pub open spec fn hash_kind(s: Seq<char>) -> PasswordResult {
    if all_hex(s) && s.len() == 40 {
        PasswordResult::SHA1
    } else if all_hex(s) && s.len() == 64 {
        PasswordResult::SHA256
    } else if all_hex(s) && s.len() == 128 {
        PasswordResult::SHA512
    } else {
        PasswordResult::UnknownHash
    }
}

/// The prefix of an Argon2 hash string.
pub const ARGON2_PREFIX: &'static str = "$argon2";

impl PasswordResult {
    /// Whether every character of `s` is a hexadecimal digit.
    pub fn is_valid_hex(s: &String) -> (r: bool)
        ensures
            r == all_hex(s@),
    {
        let t = s.as_str();
        let n = t.unicode_len();
        let mut i: usize = 0;
        while i < n
            invariant
                n == t@.len(),
                t@ == s@,
                i <= n,
                forall|k: int| 0 <= k < i ==> #[trigger] is_hex_digit(t@[k]),
            decreases n - i,
        {
            let c = t.get_char(i);
            if !(('0' <= c && c <= '9') || ('a' <= c && c <= 'f') || ('A' <= c && c <= 'F')) {
                assert(!is_hex_digit(t@[i as int]));
                return false;
            }
            i = i + 1;
        }
        true
    }

    /// The kind of hash that a password is: always `Ok`. Hex digests of 40,
    /// 64 and 128 digits are SHA-1, SHA-256 and SHA-512; other passwords are
    /// of unknown kind. Telling Argon2 hashes (those that begin with
    /// `$argon2`) apart needs a Base64 check of their hash part that is not
    /// written yet, so such passwords are not accepted here.
    pub fn password_check(password: String) -> (r: Result<PasswordResult, PasswordResult>)
        requires
            !has_prefix(password@, ARGON2_PREFIX@),
        ensures
            r == Ok::<PasswordResult, PasswordResult>(hash_kind(password@)),
    {
        let hex = Self::is_valid_hex(&password);
        let n = password.as_str().unicode_len();
        if hex && n == 40 {
            Ok(PasswordResult::SHA1)
        } else if hex && n == 64 {
            Ok(PasswordResult::SHA256)
        } else if hex && n == 128 {
            Ok(PasswordResult::SHA512)
        } else {
            Ok(PasswordResult::UnknownHash)
        }
    }
}

/// A hex digest of one of the three lengths is never taken for an unknown
/// hash, and no hex string is taken for Argon2.
pub proof fn lemma_hex_digest_kinds(s: Seq<char>)
    requires
        all_hex(s),
        s.len() == 40 || s.len() == 64 || s.len() == 128,
    ensures
        hash_kind(s) != PasswordResult::UnknownHash,
        hash_kind(s) != PasswordResult::Argon2,
{
}

/// A text holds an SQL keyword exactly when it contains one of these 28
/// words.
#[verifier::rlimit(50)]
pub proof fn lemma_sql_keywords_are_the_listed_words(text: Seq<char>)
    ensures
        has_sql_keyword(text) <==> (
               has_substring(text, "SELECT"@)
            || has_substring(text, "INSERT"@)
            || has_substring(text, "UPDATE"@)
            || has_substring(text, "DELETE"@)
            || has_substring(text, "DROP"@)
            || has_substring(text, "ALTER"@)
            || has_substring(text, "UNION"@)
            || has_substring(text, "JOIN"@)
            || has_substring(text, "FROM"@)
            || has_substring(text, "WHERE"@)
            || has_substring(text, "HAVING"@)
            || has_substring(text, "OR"@)
            || has_substring(text, "AND"@)
            || has_substring(text, "LIKE"@)
            || has_substring(text, "GROUP"@)
            || has_substring(text, "ORDER"@)
            || has_substring(text, "BY"@)
            || has_substring(text, "EXEC"@)
            || has_substring(text, "EXECUTE"@)
            || has_substring(text, "DECLARE"@)
            || has_substring(text, "TRUNCATE"@)
            || has_substring(text, "RENAME"@)
            || has_substring(text, "CREATE"@)
            || has_substring(text, "TABLE"@)
            || has_substring(text, "INDEX"@)
            || has_substring(text, "VIEW"@)
            || has_substring(text, "PROCEDURE"@)
            || has_substring(text, "FUNCTION"@)
        ),
{
    assert(sql_keywords().len() == 28);
    if has_sql_keyword(text) {
        let i = choose|i: int| 0 <= i < sql_keywords().len() && has_substring(text, #[trigger] sql_keywords()[i]);
        if i == 0 {
            assert(sql_keywords()[0] == "SELECT"@);
        } else if i == 1 {
            assert(sql_keywords()[1] == "INSERT"@);
        } else if i == 2 {
            assert(sql_keywords()[2] == "UPDATE"@);
        } else if i == 3 {
            assert(sql_keywords()[3] == "DELETE"@);
        } else if i == 4 {
            assert(sql_keywords()[4] == "DROP"@);
        } else if i == 5 {
            assert(sql_keywords()[5] == "ALTER"@);
        } else if i == 6 {
            assert(sql_keywords()[6] == "UNION"@);
        } else if i == 7 {
            assert(sql_keywords()[7] == "JOIN"@);
        } else if i == 8 {
            assert(sql_keywords()[8] == "FROM"@);
        } else if i == 9 {
            assert(sql_keywords()[9] == "WHERE"@);
        } else if i == 10 {
            assert(sql_keywords()[10] == "HAVING"@);
        } else if i == 11 {
            assert(sql_keywords()[11] == "OR"@);
        } else if i == 12 {
            assert(sql_keywords()[12] == "AND"@);
        } else if i == 13 {
            assert(sql_keywords()[13] == "LIKE"@);
        } else if i == 14 {
            assert(sql_keywords()[14] == "GROUP"@);
        } else if i == 15 {
            assert(sql_keywords()[15] == "ORDER"@);
        } else if i == 16 {
            assert(sql_keywords()[16] == "BY"@);
        } else if i == 17 {
            assert(sql_keywords()[17] == "EXEC"@);
        } else if i == 18 {
            assert(sql_keywords()[18] == "EXECUTE"@);
        } else if i == 19 {
            assert(sql_keywords()[19] == "DECLARE"@);
        } else if i == 20 {
            assert(sql_keywords()[20] == "TRUNCATE"@);
        } else if i == 21 {
            assert(sql_keywords()[21] == "RENAME"@);
        } else if i == 22 {
            assert(sql_keywords()[22] == "CREATE"@);
        } else if i == 23 {
            assert(sql_keywords()[23] == "TABLE"@);
        } else if i == 24 {
            assert(sql_keywords()[24] == "INDEX"@);
        } else if i == 25 {
            assert(sql_keywords()[25] == "VIEW"@);
        } else if i == 26 {
            assert(sql_keywords()[26] == "PROCEDURE"@);
        } else if i == 27 {
            assert(sql_keywords()[27] == "FUNCTION"@);
        }
    } else {
        if has_substring(text, "SELECT"@) {
            assert(sql_keywords()[0] == "SELECT"@);
        } else if has_substring(text, "INSERT"@) {
            assert(sql_keywords()[1] == "INSERT"@);
        } else if has_substring(text, "UPDATE"@) {
            assert(sql_keywords()[2] == "UPDATE"@);
        } else if has_substring(text, "DELETE"@) {
            assert(sql_keywords()[3] == "DELETE"@);
        } else if has_substring(text, "DROP"@) {
            assert(sql_keywords()[4] == "DROP"@);
        } else if has_substring(text, "ALTER"@) {
            assert(sql_keywords()[5] == "ALTER"@);
        } else if has_substring(text, "UNION"@) {
            assert(sql_keywords()[6] == "UNION"@);
        } else if has_substring(text, "JOIN"@) {
            assert(sql_keywords()[7] == "JOIN"@);
        } else if has_substring(text, "FROM"@) {
            assert(sql_keywords()[8] == "FROM"@);
        } else if has_substring(text, "WHERE"@) {
            assert(sql_keywords()[9] == "WHERE"@);
        } else if has_substring(text, "HAVING"@) {
            assert(sql_keywords()[10] == "HAVING"@);
        } else if has_substring(text, "OR"@) {
            assert(sql_keywords()[11] == "OR"@);
        } else if has_substring(text, "AND"@) {
            assert(sql_keywords()[12] == "AND"@);
        } else if has_substring(text, "LIKE"@) {
            assert(sql_keywords()[13] == "LIKE"@);
        } else if has_substring(text, "GROUP"@) {
            assert(sql_keywords()[14] == "GROUP"@);
        } else if has_substring(text, "ORDER"@) {
            assert(sql_keywords()[15] == "ORDER"@);
        } else if has_substring(text, "BY"@) {
            assert(sql_keywords()[16] == "BY"@);
        } else if has_substring(text, "EXEC"@) {
            assert(sql_keywords()[17] == "EXEC"@);
        } else if has_substring(text, "EXECUTE"@) {
            assert(sql_keywords()[18] == "EXECUTE"@);
        } else if has_substring(text, "DECLARE"@) {
            assert(sql_keywords()[19] == "DECLARE"@);
        } else if has_substring(text, "TRUNCATE"@) {
            assert(sql_keywords()[20] == "TRUNCATE"@);
        } else if has_substring(text, "RENAME"@) {
            assert(sql_keywords()[21] == "RENAME"@);
        } else if has_substring(text, "CREATE"@) {
            assert(sql_keywords()[22] == "CREATE"@);
        } else if has_substring(text, "TABLE"@) {
            assert(sql_keywords()[23] == "TABLE"@);
        } else if has_substring(text, "INDEX"@) {
            assert(sql_keywords()[24] == "INDEX"@);
        } else if has_substring(text, "VIEW"@) {
            assert(sql_keywords()[25] == "VIEW"@);
        } else if has_substring(text, "PROCEDURE"@) {
            assert(sql_keywords()[26] == "PROCEDURE"@);
        } else if has_substring(text, "FUNCTION"@) {
            assert(sql_keywords()[27] == "FUNCTION"@);
        }
    }
}

} // verus!
