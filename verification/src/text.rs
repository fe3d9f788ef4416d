//! Text as the engine hands it out: fixed C character arrays ended by a NUL,
//! and names that must be valid UTF-8.

use vstd::prelude::*;
use vstd::utf8::*;

verus! {

/// Number of bytes before the first NUL of `s` (all of `s` if it holds none).
pub open spec fn c_str_len(s: Seq<u8>) -> nat
    decreases s.len(),
{
    if s.len() == 0 {
        0
    } else if s[0] == 0 {
        0
    } else {
        1 + c_str_len(s.drop_first())
    }
}

/// The character a byte of engine text stands for: the code point of the
/// same number.
pub open spec fn byte_char(b: u8) -> char {
    b as char
}

/// The text held in a NUL-terminated character array: the bytes before the
/// first NUL, each read as the character of the same code point.
pub open spec fn c_text(s: Seq<u8>) -> Seq<char> {
    s.take(c_str_len(s) as int).map_values(|b: u8| byte_char(b))
}

/// The text before the first NUL ends at a NUL, or at the end of the array,
/// and holds none.
pub proof fn lemma_c_str_len(s: Seq<u8>)
    ensures
        c_str_len(s) <= s.len(),
        c_str_len(s) < s.len() ==> s[c_str_len(s) as int] == 0,
        forall|i: int| 0 <= i < c_str_len(s) ==> s[i] != 0,
    decreases s.len(),
{
    if s.len() > 0 && s[0] != 0 {
        lemma_c_str_len(s.drop_first());
        assert forall|i: int| 0 <= i < c_str_len(s) implies s[i] != 0 by {
            if i > 0 {
                assert(s[i] == s.drop_first()[i - 1]);
            }
        }
    }
}

/// `c_str_len` is the only length with the properties above.
proof fn lemma_c_str_len_unique(s: Seq<u8>, n: int)
    requires
        0 <= n <= s.len(),
        n < s.len() ==> s[n] == 0,
        forall|i: int| 0 <= i < n ==> s[i] != 0,
    ensures
        c_str_len(s) == n,
    decreases s.len(),
{
    if s.len() > 0 && s[0] != 0 {
        assert forall|i: int| 0 <= i < n - 1 implies s.drop_first()[i] != 0 by {
            assert(s[i + 1] != 0);
        }
        lemma_c_str_len_unique(s.drop_first(), n - 1);
    }
}

/// Text read out of a character array holds no NUL and is no longer than the
/// array.
pub proof fn lemma_c_text_bounded(s: Seq<u8>)
    ensures
        c_text(s).len() <= s.len(),
        forall|i: int| 0 <= i < c_text(s).len() ==> c_text(s)[i] != '\0',
{
    lemma_c_str_len(s);
    assert forall|i: int| 0 <= i < c_text(s).len() implies c_text(s)[i] != '\0' by {
        assert(s[i] != 0);
        assert(c_text(s)[i] == byte_char(s[i]));
    }
}

/// Text read out of a character array is exactly its bytes before the first
/// NUL, each character having the byte's value as its code point.
pub proof fn lemma_c_text_is_bytes(s: Seq<u8>)
    ensures
        c_text(s).len() == c_str_len(s),
        forall|k: int| 0 <= k < c_text(s).len() ==> (#[trigger] c_text(s)[k]) as u32 == s[k] as u32,
{
    lemma_c_str_len(s);
    assert forall|k: int| 0 <= k < c_text(s).len() implies (#[trigger] c_text(s)[k]) as u32
        == s[k] as u32 by {
        assert(c_text(s)[k] == byte_char(s[k]));
    }
}

/// Appends a character to a `String` (`String::push`).
#[verifier::external_body]
fn push_char(s: &mut String, c: char)
    ensures
        final(s)@ == old(s)@.push(c),
{
    s.push(c);
}

/// Read the text out of a NUL-terminated character array.
pub fn c_chars_to_string(s: &[u8]) -> (r: String)
    ensures
        r@ == c_text(s@),
        r@.len() == c_str_len(s@),
        forall|k: int| 0 <= k < r@.len() ==> (#[trigger] r@[k]) as u32 == s@[k] as u32,
{
    let mut out = String::new();
    let mut i: usize = 0;
    while i < s.len()
        invariant_except_break
            i <= s.len(),
            forall|j: int| 0 <= j < i ==> s@[j] != 0,
            out@ == s@.take(i as int).map_values(|b: u8| byte_char(b)),
        ensures
            i <= s.len(),
            i < s.len() ==> s@[i as int] == 0,
            forall|j: int| 0 <= j < i ==> s@[j] != 0,
            out@ == s@.take(i as int).map_values(|b: u8| byte_char(b)),
        decreases s.len() - i,
    {
        let b = s[i];
        if b == 0 {
            break;
        }
        push_char(&mut out, b as char);
        assert(s@.take(i + 1) == s@.take(i as int).push(b));
        i = i + 1;
        assert(out@ =~= s@.take(i as int).map_values(|b: u8| byte_char(b)));
    }
    proof {
        lemma_c_str_len_unique(s@, i as int);
        lemma_c_text_is_bytes(s@);
    }
    out
}

/// Checks a byte string as UTF-8 (`core::str::from_utf8`), giving the string
/// slice on success and `None` on failure.
#[verifier::external_body]
fn utf8_str(bytes: &[u8]) -> (r: Option<&str>)
    ensures
        r is Some <==> valid_utf8(bytes@),
        r matches Some(s) ==> encode_utf8(s@) == bytes@,
{
    match core::str::from_utf8(bytes) {
        Ok(s) => Some(s),
        Err(_) => None,
    }
}

/// The name the engine reported for a register or a group, given as the
/// bytes before its NUL terminator, or `None` where the engine reported none
/// (a null pointer). A name that is not valid UTF-8 is dropped.
pub fn name_from_engine(raw: Option<&[u8]>) -> (r: Option<String>)
    ensures
        r is Some <==> (raw matches Some(b) && valid_utf8(b@)),
        r matches Some(n) ==> raw matches Some(b) && encode_utf8(n@) == b@,
{
    match raw {
        None => None,
        Some(bytes) => match utf8_str(bytes) {
            Some(s) => Some(s.to_owned()),
            None => None,
        },
    }
}

/// The text shown for an engine error whose description is not valid UTF-8.
pub const ERROR_MESSAGE_FALLBACK: &'static str = "Failed to creare the error message string";

/// The message for an engine error, given the engine's description of it as
/// the bytes before its NUL terminator: the description where it is valid
/// UTF-8, the fixed fallback text otherwise.
pub fn error_message_from_engine(raw: &[u8]) -> (r: String)
    ensures
        valid_utf8(raw@) ==> encode_utf8(r@) == raw@,
        !valid_utf8(raw@) ==> r@ == ERROR_MESSAGE_FALLBACK@,
{
    match utf8_str(raw) {
        Some(s) => s.to_owned(),
        None => ERROR_MESSAGE_FALLBACK.to_owned(),
    }
}

} // verus!
