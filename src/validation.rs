//! Validation of what the user types into the wizard, and the classification
//! of Wi-Fi connection errors.
use vstd::prelude::*;
use crate::text::{
    chars_of, contains_text, has_substring, is_alnum_char, is_digit_char, is_lower_char,
    lower_of, lowercase, str_eq,
};

verus! {

/// The name of the superuser account, which the installer never creates.
pub open spec fn superuser_name() -> Seq<char> {
    "root"@
}

pub open spec fn utc_variant(s: Seq<char>) -> bool {
    s == "UTC"@ || s == "Etc/UTC"@ || s == "Etc/GMT"@ || s == "GMT"@
}

/// A character allowed after the first one of a user name.
pub open spec fn username_tail_char(c: char) -> bool {
    is_lower_char(c) || is_digit_char(c) || c == '_' || c == '-'
}

pub open spec fn username_ok(s: Seq<char>) -> bool {
    &&& s.len() > 0
    &&& s != superuser_name()
    &&& is_lower_char(s[0])
    &&& forall|i: int| 1 <= i < s.len() ==> username_tail_char(#[trigger] s[i])
}

pub open spec fn hostname_char(c: char) -> bool {
    is_alnum_char(c) || c == '-'
}

/// The longest host name accepted.
pub const HOSTNAME_MAX_LEN: usize = 63;

pub open spec fn hostname_ok(s: Seq<char>) -> bool {
    &&& 1 <= s.len() <= HOSTNAME_MAX_LEN
    &&& forall|i: int| 0 <= i < s.len() ==> hostname_char(#[trigger] s[i])
}

/// Text that marks a failed Wi-Fi connection as an authentication failure,
/// once lower-cased.
pub open spec fn auth_keyword_in(s: Seq<char>) -> bool {
    has_substring(s, "password"@) || has_substring(s, "secrets"@) || has_substring(s, "auth"@)
        || has_substring(s, "authentication"@) || has_substring(s, "access denied"@)
}

/// Whether a timezone names plain UTC under one of its usual spellings.
pub fn is_utc_variant(value: &str) -> (r: bool)
    ensures
        r == utc_variant(value@),
{
    str_eq(value, "UTC") || str_eq(value, "Etc/UTC") || str_eq(value, "Etc/GMT") || str_eq(
        value,
        "GMT",
    )
}

pub fn valid_username(value: &str) -> (r: bool)
    ensures
        r == username_ok(value@),
{
    let cs = chars_of(value);
    if cs.len() == 0 || str_eq(value, "root") {
        return false;
    }
    let first = cs[0];
    if !('a' <= first && first <= 'z') {
        return false;
    }
    let mut i: usize = 1;
    while i < cs.len()
        invariant
            cs@ == value@,
            1 <= i <= cs.len(),
            forall|j: int| 1 <= j < i ==> username_tail_char(#[trigger] cs@[j]),
        decreases cs.len() - i,
    {
        let c = cs[i];
        if !(('a' <= c && c <= 'z') || ('0' <= c && c <= '9') || c == '_' || c == '-') {
            return false;
        }
        i = i + 1;
    }
    true
}

pub fn valid_hostname(value: &str) -> (r: bool)
    ensures
        r == hostname_ok(value@),
{
    let cs = chars_of(value);
    if cs.len() == 0 || cs.len() > HOSTNAME_MAX_LEN {
        return false;
    }
    let mut i: usize = 0;
    while i < cs.len()
        invariant
            cs@ == value@,
            i <= cs.len(),
            forall|j: int| 0 <= j < i ==> hostname_char(#[trigger] cs@[j]),
        decreases cs.len() - i,
    {
        let c = cs[i];
        if !(('a' <= c && c <= 'z') || ('A' <= c && c <= 'Z') || ('0' <= c && c <= '9') || c
            == '-') {
            return false;
        }
        i = i + 1;
    }
    true
}

/// Whether an already lower-cased connection error names an authentication
/// failure.
pub fn has_auth_keyword(lowered: &str) -> (r: bool)
    ensures
        r == auth_keyword_in(lowered@),
{
    contains_text(lowered, "password") || contains_text(lowered, "secrets") || contains_text(
        lowered,
        "auth",
    ) || contains_text(lowered, "authentication") || contains_text(lowered, "access denied")
}

/// Whether a Wi-Fi connection error is an authentication failure (a wrong
/// password), as opposed to any other failure.
pub fn is_wifi_auth_error(message: &str) -> (r: bool)
    ensures
        r == auth_keyword_in(lower_of(message@)),
{
    let lowered = lowercase(message);
    has_auth_keyword(lowered.as_str())
}

} // verus!
