//! Text helpers shared by the modules that read names.

use crate::errors::ReturnCode;
use vstd::prelude::*;
use vstd::string::StrSliceExecFns;
use vstd::utf8::{decode_utf8, valid_utf8};

verus! {

/// The lower-case form of a text, as `str::to_lowercase` computes it from the
/// Unicode character tables.
pub uninterp spec fn lowercase(s: Seq<char>) -> Seq<char>;

/// Wraps `str::to_lowercase`: the result is the lower-case form of `s`.
#[verifier::external_body]
pub(crate) fn to_lowercase(s: &str) -> (r: String)
    ensures
        r@ == lowercase(s@),
{
    s.to_lowercase()
}

/// Whether two texts hold the same characters.
pub(crate) fn str_eq(a: &str, b: &str) -> (r: bool)
    ensures
        r == (a@ == b@),
{
    a.to_owned() == b.to_owned()
}

/// Whether a text holds the NUL character, which no native text can hold.
pub open spec fn has_nul(s: Seq<char>) -> bool {
    exists|i: int| 0 <= i < s.len() && s[i] == '\0'
}

/// Whether a text holds the NUL character.
pub fn contains_nul(s: &str) -> (b: bool)
    ensures
        b == has_nul(s@),
{
    let n = s.unicode_len();
    let mut i: usize = 0;
    while i < n
        invariant
            n == s@.len(),
            i <= n,
            forall|k: int| 0 <= k < i ==> s@[k] != '\0',
        decreases n - i,
    {
        if s.get_char(i) == '\0' {
            return true;
        }
        i += 1;
    }
    false
}

/// Checks that a text can be handed to the native library: a text that holds
/// the NUL character is rejected with `Invalid`.
pub fn native_text(s: &str) -> (r: Result<(), ReturnCode>)
    ensures
        r == (if has_nul(s@) {
            Err::<(), ReturnCode>(ReturnCode::Invalid)
        } else {
            Ok(())
        }),
{
    if contains_nul(s) {
        Err(ReturnCode::Invalid)
    } else {
        Ok(())
    }
}

/// The text that bytes stand for when every ill-formed part is replaced by
/// U+FFFD, as `String::from_utf8_lossy` computes it.
pub uninterp spec fn lossy_text(bytes: Seq<u8>) -> Seq<char>;

/// Wraps `String::from_utf8_lossy`: the text of the bytes, with U+FFFD in
/// place of what is not UTF-8. Well-formed bytes give the text they encode.
#[verifier::external_body]
pub(crate) fn from_utf8_lossy(bytes: &[u8]) -> (r: String)
    ensures
        r@ == lossy_text(bytes@),
        valid_utf8(bytes@) ==> r@ == decode_utf8(bytes@),
{
    String::from_utf8_lossy(bytes).into_owned()
}

/// Wraps `std::str::from_utf8`: the text that the bytes encode, or nothing
/// where they are not well-formed UTF-8.
#[verifier::external_body]
pub(crate) fn from_utf8(bytes: &[u8]) -> (r: Option<String>)
    ensures
        match r {
            Some(text) => valid_utf8(bytes@) && text@ == decode_utf8(bytes@),
            None => !valid_utf8(bytes@),
        },
{
    match std::str::from_utf8(bytes) {
        Ok(text) => Some(text.to_owned()),
        Err(_) => None,
    }
}

/// Reads a reply that carries a text, given the bytes that the native library
/// pointed to, if it pointed to any: the failure that `code` names; else
/// `NoMemory` where there is no text; else the text, read leniently.
pub fn text_reply(code: u32, text: Option<&[u8]>) -> (r: Result<String, ReturnCode>)
    ensures
        match ReturnCode::spec_result(code) {
            Err(e) => r == Err::<String, ReturnCode>(e),
            Ok(_) => match text {
                Some(bytes) => r is Ok && r->Ok_0@ == lossy_text(bytes@),
                None => r == Err::<String, ReturnCode>(ReturnCode::NoMemory),
            },
        },
{
    match ReturnCode::result(code) {
        Err(e) => Err(e),
        Ok(_) => match text {
            Some(bytes) => Ok(from_utf8_lossy(bytes)),
            None => Err(ReturnCode::NoMemory),
        },
    }
}

/// Reads a reply that may carry a text: the failure that `code` names, or
/// else the text, read leniently, if the native library pointed to one.
pub fn optional_text_reply(code: u32, text: Option<&[u8]>) -> (r: Result<
    Option<String>,
    ReturnCode,
>)
    ensures
        match ReturnCode::spec_result(code) {
            Err(e) => r == Err::<Option<String>, ReturnCode>(e),
            Ok(_) => match text {
                Some(bytes) => r is Ok && r->Ok_0 is Some && r->Ok_0->Some_0@ == lossy_text(
                    bytes@,
                ),
                None => r == Ok::<Option<String>, ReturnCode>(None),
            },
        },
{
    match ReturnCode::result(code) {
        Err(e) => Err(e),
        Ok(_) => match text {
            Some(bytes) => Ok(Some(from_utf8_lossy(bytes))),
            None => Ok(None),
        },
    }
}

/// Reads a reply whose text may be missing: the failure that `code` names, or
/// else the text, read leniently, or the empty text where the native library
/// pointed to none.
pub fn text_or_empty_reply(code: u32, text: Option<&[u8]>) -> (r: Result<String, ReturnCode>)
    ensures
        match ReturnCode::spec_result(code) {
            Err(e) => r == Err::<String, ReturnCode>(e),
            Ok(_) => match text {
                Some(bytes) => r is Ok && r->Ok_0@ == lossy_text(bytes@),
                None => r is Ok && r->Ok_0@ == Seq::<char>::empty(),
            },
        },
{
    match ReturnCode::result(code) {
        Err(e) => Err(e),
        Ok(_) => match text {
            Some(bytes) => Ok(from_utf8_lossy(bytes)),
            None => Ok(String::new()),
        },
    }
}

/// Reads a text strictly, given the bytes that the native library pointed to,
/// if it pointed to any: the empty text for none, the text that the bytes
/// encode, and `Invalid` where they are not well-formed UTF-8.
pub fn strict_text(text: Option<&[u8]>) -> (r: Result<String, ReturnCode>)
    ensures
        match text {
            None => r is Ok && r->Ok_0@ == Seq::<char>::empty(),
            Some(bytes) => if valid_utf8(bytes@) {
                r is Ok && r->Ok_0@ == decode_utf8(bytes@)
            } else {
                r == Err::<String, ReturnCode>(ReturnCode::Invalid)
            },
        },
{
    match text {
        None => Ok(String::new()),
        Some(bytes) => match from_utf8(bytes) {
            Some(text) => Ok(text),
            None => Err(ReturnCode::Invalid),
        },
    }
}

} // verus!
