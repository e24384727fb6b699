//! The two formats a contact detail is held to: the national mobile number,
//! which is a regular expression, and the `local@domain.tld` shape of an
//! e-mail address.

use crate::text::{char_is_whitespace, is_whitespace, to_chars};
use vstd::prelude::*;

verus! {

/// The pattern of a Korean mobile number: `01`, one of `0 1 6 7 8 9`, then
/// groups of three or four and of four digits, each after an optional hyphen.
pub const PHONE_PATTERN: &'static str = "^01[016789]-?\\d{3,4}-?\\d{4}$";

/// What the `regex` crate answers for a pattern and a text: whether the text
/// has a match, or `None` where the pattern does not compile.
pub uninterp spec fn regex_match(pattern: Seq<char>, text: Seq<char>) -> Option<bool>;

/// `regex::Regex::new` on `pattern`, then `Regex::is_match` on `text`.
/// Believed of them: the answer depends on the two texts alone. `None` stands
/// for a pattern that `Regex::new` refuses.
#[verifier::external_body]
fn pattern_is_match(pattern: &str, text: &str) -> (found: Option<bool>)
    ensures
        found == regex_match(pattern@, text@),
{
    match regex::Regex::new(pattern) {
        Ok(re) => Some(re.is_match(text)),
        Err(_) => None,
    }
}

/// A text in the format of a mobile number.
pub open spec fn phone_format(s: Seq<char>) -> bool {
    regex_match(PHONE_PATTERN@, s) == Some(true)
}

/// Whether `phone` is in the format of a mobile number.
pub fn is_valid_phone(phone: &str) -> (valid: bool)
    ensures
        valid == phone_format(phone@),
{
    match pattern_is_match(PHONE_PATTERN, phone) {
        Some(found) => found,
        None => false,
    }
}

/// `at` and `dot` cut `s` into a local part, a domain name and a top-level
/// name, none of them empty, with the only `@` of `s` at `at`.
pub open spec fn email_split(s: Seq<char>, at: int, dot: int) -> bool {
    &&& 1 <= at
    &&& at + 2 <= dot
    &&& dot + 2 <= s.len()
    &&& s[at] == '@'
    &&& s[dot] == '.'
    &&& forall|k: int| 0 <= k < s.len() && k != at ==> s[k] != '@'
}

/// A text of the shape `local@domain.tld`: no white space, one `@`, and after
/// it a dot with something on both sides.
pub open spec fn email_format(s: Seq<char>) -> bool {
    &&& forall|k: int| 0 <= k < s.len() ==> !is_whitespace(#[trigger] s[k])
    &&& exists|at: int, dot: int| email_split(s, at, dot)
}

/// Whether `email` has the shape `local@domain.tld`.
pub fn is_valid_email(email: &str) -> (valid: bool)
    ensures
        valid == email_format(email@),
{
    let chars = to_chars(email);
    let n: usize = chars.len();
    let ghost s = chars@;
    let mut at: usize = n;
    let mut i: usize = 0;
    while i < n
        invariant
            s == chars@,
            s == email@,
            n == chars.len(),
            i <= n,
            at <= n,
            forall|k: int| 0 <= k < i ==> !is_whitespace(#[trigger] s[k]),
            at == n ==> forall|k: int| 0 <= k < i ==> s[k] != '@',
            at < n ==> at < i && s[at as int] == '@' && forall|k: int|
                0 <= k < i && k != at ==> s[k] != '@',
        decreases n - i,
    {
        let c = chars[i];
        if char_is_whitespace(c) {
            assert(is_whitespace(s[i as int]));
            return false;
        }
        if c == '@' {
            if at < n {
                assert forall|a: int, d: int| !email_split(s, a, d) by {
                    if a == at {
                        assert(s[i as int] == '@');
                    } else {
                        assert(s[at as int] == '@');
                    }
                }
                return false;
            }
            at = i;
        }
        i += 1;
    }
    if at == n || at == 0 || n - at < 4 {
        assert forall|a: int, d: int| !email_split(s, a, d) by {
            if at < n && a != at {
                assert(s[at as int] == '@');
            }
        }
        return false;
    }
    let mut dot: usize = at + 2;
    while dot + 1 < n
        invariant
            s == chars@,
            s == email@,
            n == chars.len(),
            1 <= at,
            at + 4 <= n,
            at + 2 <= dot <= n - 1,
            s[at as int] == '@',
            forall|k: int| 0 <= k < n && k != at ==> s[k] != '@',
            forall|k: int| 0 <= k < n ==> !is_whitespace(#[trigger] s[k]),
            forall|k: int| at + 2 <= k < dot ==> s[k] != '.',
        decreases n - dot,
    {
        if chars[dot] == '.' {
            assert(email_split(s, at as int, dot as int));
            return true;
        }
        dot += 1;
    }
    assert forall|a: int, d: int| !email_split(s, a, d) by {
        if a != at {
            assert(s[at as int] == '@');
        }
    }
    false
}

} // verus!
