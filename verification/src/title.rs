//! From the native representations of a window's name to a title.

use vstd::prelude::*;
use vstd::utf8::{decode_utf8, valid_utf8};

verus! {

/// The text that lossy UTF-8 decoding makes of `bytes`: every ill-formed
/// part is replaced by U+FFFD.
pub uninterp spec fn utf8_lossy(bytes: Seq<u8>) -> Seq<char>;

/// The text that lossy UTF-16 decoding makes of `units`: every unpaired
/// surrogate is replaced by U+FFFD.
pub uninterp spec fn utf16_lossy(units: Seq<u16>) -> Seq<char>;

/// The bytes in front of the first NUL, or all of them where there is none.
pub open spec fn before_nul(bytes: Seq<u8>) -> Seq<u8>
    decreases bytes.len(),
{
    if bytes.len() == 0 || bytes[0] == 0 {
        Seq::empty()
    } else {
        seq![bytes[0]] + before_nul(bytes.drop_first())
    }
}

/// `text` without the NUL characters at its end.
pub open spec fn without_trailing_nul(text: Seq<char>) -> Seq<char>
    decreases text.len(),
{
    if text.len() > 0 && text.last() == '\0' {
        without_trailing_nul(text.drop_last())
    } else {
        text
    }
}

/// `String::from_utf8_lossy` of std, its result made an owned `String`. The
/// result is a function of the bytes alone; where they are well-formed
/// UTF-8 it is the text they encode.
#[verifier::external_body]
fn decode_utf8_lossy(bytes: &[u8]) -> (text: String)
    ensures
        text@ == utf8_lossy(bytes@),
        valid_utf8(bytes@) ==> text@ == decode_utf8(bytes@),
{
    String::from_utf8_lossy(bytes).into_owned()
}

/// `String::from_utf16_lossy` of std. The result is a function of the code
/// units alone.
#[verifier::external_body]
fn decode_utf16_lossy(units: &[u16]) -> (text: String)
    ensures
        text@ == utf16_lossy(units@),
{
    String::from_utf16_lossy(units)
}

/// `str::trim_end_matches` of std with the pattern `'\0'`, its result made an
/// owned `String`: the text without the NUL characters at its end.
#[verifier::external_body]
fn trim_trailing_nul(text: &str) -> (trimmed: String)
    ensures
        trimmed@ == without_trailing_nul(text@),
{
    text.trim_end_matches('\0').to_string()
}

/// `cut` is where `before_nul` ends: no NUL stands in front of it, and it is
/// the end of the bytes or the place of a NUL.
pub proof fn lemma_before_nul(bytes: Seq<u8>, cut: int)
    requires
        0 <= cut <= bytes.len(),
        forall|i: int| 0 <= i < cut ==> bytes[i] != 0,
        cut == bytes.len() || bytes[cut] == 0,
    ensures
        before_nul(bytes) == bytes.take(cut),
    decreases cut,
{
    if cut == 0 {
        assert(bytes.take(0) =~= Seq::<u8>::empty());
    } else {
        let rest = bytes.drop_first();
        assert forall|i: int| 0 <= i < cut - 1 implies rest[i] != 0 by {
            assert(rest[i] == bytes[i + 1]);
        }
        lemma_before_nul(rest, cut - 1);
        assert(bytes.take(cut) =~= seq![bytes[0]] + rest.take(cut - 1));
    }
}

/// The title that a property value read from the display server holds: the
/// bytes in front of the first NUL, decoded as UTF-8, ill-formed parts
/// replaced.
pub fn title_from_bytes(bytes: &[u8]) -> (title: String)
    ensures
        title@ == utf8_lossy(before_nul(bytes@)),
        valid_utf8(before_nul(bytes@)) ==> title@ == decode_utf8(before_nul(bytes@)),
{
    let mut text: Vec<u8> = Vec::new();
    let mut i: usize = 0;
    while i < bytes.len() && bytes[i] != 0
        invariant
            i <= bytes.len(),
            text@ == bytes@.take(i as int),
            forall|k: int| 0 <= k < i ==> bytes@[k] != 0,
        decreases bytes.len() - i,
    {
        text.push(bytes[i]);
        i += 1;
        assert(text@ =~= bytes@.take(i as int));
    }
    proof {
        lemma_before_nul(bytes@, i as int);
    }
    decode_utf8_lossy(text.as_slice())
}

/// The title that a window-text buffer of UTF-16 code units holds: the text
/// decoded, unpaired surrogates replaced, without the NUL characters that
/// pad its end.
pub fn title_from_utf16(units: &[u16]) -> (title: String)
    ensures
        title@ == without_trailing_nul(utf16_lossy(units@)),
{
    let text = decode_utf16_lossy(units);
    trim_trailing_nul(text.as_str())
}

} // verus!
