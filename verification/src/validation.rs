//! Input validation: the character classes, length rules and email check
//! the signup and login models are held to.

use vstd::prelude::*;

use vstd::string::StrSliceExecFns;

verus! {

/// A character the name rule accepts: a letter, space, apostrophe or
/// hyphen.
pub open spec fn name_char(c: char) -> bool {
    ('A' <= c && c <= 'Z') || ('a' <= c && c <= 'z') || c == ' ' || c == '\'' || c == '-'
}

/// A character the username rule accepts: a letter, digit, underscore or
/// hyphen.
pub open spec fn username_char(c: char) -> bool {
    ('A' <= c && c <= 'Z') || ('a' <= c && c <= 'z') || ('0' <= c && c <= '9') || c == '_' || c
        == '-'
}

/// The name rule: an unanchored search, satisfied by any string holding
/// at least one acceptable character.
pub open spec fn name_matches(s: Seq<char>) -> bool {
    exists|i: int| 0 <= i < s.len() && name_char(s[i])
}

/// The username rule, likewise unanchored.
pub open spec fn username_matches(s: Seq<char>) -> bool {
    exists|i: int| 0 <= i < s.len() && username_char(s[i])
}

fn is_name_char(c: char) -> (r: bool)
    ensures
        r == name_char(c),
{
    ('A' <= c && c <= 'Z') || ('a' <= c && c <= 'z') || c == ' ' || c == '\'' || c == '-'
}

fn is_username_char(c: char) -> (r: bool)
    ensures
        r == username_char(c),
{
    ('A' <= c && c <= 'Z') || ('a' <= c && c <= 'z') || ('0' <= c && c <= '9') || c == '_' || c
        == '-'
}

/// Whether the string passes the name rule.
pub fn check_name_matches(s: &str) -> (r: bool)
    ensures
        r == name_matches(s@),
{
    let n = s.unicode_len();
    let mut i: usize = 0;
    while i < n
        invariant
            0 <= i <= n,
            n == s@.len(),
            forall|j: int| 0 <= j < i ==> !name_char(s@[j]),
        decreases n - i,
    {
        if is_name_char(s.get_char(i)) {
            return true;
        }
        i = i + 1;
    }
    false
}

/// Whether the string passes the username rule.
pub fn check_username_matches(s: &str) -> (r: bool)
    ensures
        r == username_matches(s@),
{
    let n = s.unicode_len();
    let mut i: usize = 0;
    while i < n
        invariant
            0 <= i <= n,
            n == s@.len(),
            forall|j: int| 0 <= j < i ==> !username_char(s@[j]),
        decreases n - i,
    {
        if is_username_char(s.get_char(i)) {
            return true;
        }
        i = i + 1;
    }
    false
}

/// Whether the string's character count lies within the given bounds.
pub fn check_length(s: &str, min: usize, max: usize) -> (r: bool)
    ensures
        r == (min <= s@.len() <= max),
{
    let n = s.unicode_len();
    min <= n && n <= max
}

/// Whether a string is a valid email address, by the HTML5 rules the
/// validator crate implements.
pub uninterp spec fn email_valid_of(s: Seq<char>) -> bool;

/// Relies on `validator::validate_email`: the HTML5 email verdict, a
/// function of the text alone, named by `email_valid_of`.  An empty
/// string is never a valid email.
#[verifier::external_body]
pub fn validate_email(s: &str) -> (r: bool)
    ensures
        r == email_valid_of(s@),
        s@.len() == 0 ==> r == false,
{
    validator::validate_email(s)
}

/// What trimming strips from the ends of a string.
pub uninterp spec fn trimmed_of(s: Seq<char>) -> Seq<char>;

/// Relies on `str::trim`: the input without leading and trailing
/// whitespace, a function of the text alone, named by `trimmed_of`.
#[verifier::external_body]
pub fn trim(s: &str) -> (r: String)
    ensures
        r@ == trimmed_of(s@),
{
    s.trim().to_string()
}

/// The lowercase form of a string.
pub uninterp spec fn lower_of(s: Seq<char>) -> Seq<char>;

/// Relies on `str::to_lowercase`: the result depends on the characters
/// alone, named by `lower_of`.  An empty string stays empty.
#[verifier::external_body]
pub fn to_lowercase(s: &str) -> (r: String)
    ensures
        r@ == lower_of(s@),
        s@.len() == 0 ==> r@.len() == 0,
{
    s.to_lowercase()
}

} // verus!
