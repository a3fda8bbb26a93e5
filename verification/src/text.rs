//! Word normalization and input validation shared by the game sessions.
//!
//! Names, secrets and message contents are trimmed of surrounding whitespace
//! before length checks; secrets and guesses are additionally lower-cased, so
//! that guess/secret comparison is case-insensitive and whitespace-trimmed.

use vstd::prelude::*;
use vstd::string::StrSliceExecFns;
use crate::MAX_CONTENT_LENGTH;
use crate::MAX_NAME_LENGTH;
use crate::game::Error;

verus! {

/// What `str::trim` returns: the characters with leading and trailing
/// whitespace removed.
pub uninterp spec fn trim_of(s: Seq<char>) -> Seq<char>;

/// What `str::to_lowercase` returns: the lower-cased form of the characters.
pub uninterp spec fn lower_of(s: Seq<char>) -> Seq<char>;

/// What `char::is_whitespace` returns for a character.
pub uninterp spec fn is_space(c: char) -> bool;

/// The UTF-8 byte length of a character sequence, the unit in which the
/// name and content ceilings are stated.
pub open spec fn byte_len(s: Seq<char>) -> nat {
    vstd::utf8::encode_utf8(s).len()
}

/// The normalized form of a word: trimmed, then lower-cased.
pub open spec fn normal_of(s: Seq<char>) -> Seq<char> {
    lower_of(trim_of(s))
}

/// Whether any character of the sequence is whitespace.
pub open spec fn has_space(s: Seq<char>) -> bool {
    exists|i: int| 0 <= i < s.len() && is_space(s[i])
}

/// Relies on `str::trim`: removes leading and trailing whitespace; the
/// result depends on the characters alone. The returned value is a real
/// string, so its byte length fits in `usize`.
#[verifier::external_body]
pub(crate) fn trim_str(s: &str) -> (r: String)
    ensures
        r@ == trim_of(s@),
        byte_len(r@) <= usize::MAX,
{
    s.trim().to_owned()
}

/// Relies on `str::to_lowercase`: the result depends on the characters alone.
#[verifier::external_body]
pub(crate) fn lower_str(s: &str) -> (r: String)
    ensures
        r@ == lower_of(s@),
{
    s.to_lowercase()
}

/// Relies on `char::is_whitespace`: a property of the character alone.
#[verifier::external_body]
pub(crate) fn char_is_space(c: char) -> (r: bool)
    ensures
        r == is_space(c),
{
    c.is_whitespace()
}

/// Whether the string holds any whitespace character.
pub(crate) fn contains_space(s: &str) -> (r: bool)
    ensures
        r == has_space(s@),
{
    let n = s.unicode_len();
    let mut i: usize = 0;
    let mut found = false;
    while i < n
        invariant
            n == s@.len(),
            i <= n,
            found == exists|j: int| 0 <= j < i && is_space(s@[j]),
        decreases n - i,
    {
        let c = s.get_char(i);
        if char_is_space(c) {
            found = true;
        }
        i = i + 1;
    }
    found
}

/// The validation verdict on a participant name (or a secret, which follows
/// the same rules): the trimmed form must be non-empty and within the byte
/// ceiling.
pub open spec fn name_error(input: Seq<char>) -> Option<Error> {
    if trim_of(input).len() == 0 {
        Some(Error::EmptyName)
    } else if byte_len(trim_of(input)) > MAX_NAME_LENGTH {
        Some(Error::NameTooLong(byte_len(trim_of(input)) as usize))
    } else {
        None
    }
}

/// The validation verdict on a message content: the trimmed form must be
/// non-empty and within the byte ceiling.
pub open spec fn content_error(input: Seq<char>) -> Option<Error> {
    if trim_of(input).len() == 0 {
        Some(Error::EmptyContent)
    } else if byte_len(trim_of(input)) > MAX_CONTENT_LENGTH {
        Some(Error::ContentTooLong(byte_len(trim_of(input)) as usize))
    } else {
        None
    }
}

/// Trims a participant name and checks it against the name rules.
pub(crate) fn validate_name(input: &str) -> (r: Result<String, Error>)
    ensures
        r is Ok <==> name_error(input@) is None,
        r matches Ok(name) ==> name@ == trim_of(input@),
        r matches Err(e) ==> name_error(input@) == Some(e),
{
    let trimmed = trim_str(input);
    if trimmed.as_str().is_empty() {
        Err(Error::EmptyName)
    } else if trimmed.as_str().len() > MAX_NAME_LENGTH {
        Err(Error::NameTooLong(trimmed.as_str().len()))
    } else {
        Ok(trimmed)
    }
}

/// Trims a message content and checks it against the content rules.
pub(crate) fn validate_message_content(input: &str) -> (r: Result<String, Error>)
    ensures
        r is Ok <==> content_error(input@) is None,
        r matches Ok(content) ==> content@ == trim_of(input@),
        r matches Err(e) ==> content_error(input@) == Some(e),
{
    let trimmed = trim_str(input);
    if trimmed.as_str().is_empty() {
        Err(Error::EmptyContent)
    } else if trimmed.as_str().len() > MAX_CONTENT_LENGTH {
        Err(Error::ContentTooLong(trimmed.as_str().len()))
    } else {
        Ok(trimmed)
    }
}

} // verus!
