//! Text handling for the two loops: trimming the operator's line before
//! it is sent, and lossy UTF-8 decoding of received bytes.

use vstd::prelude::*;
use vstd::utf8::decode_utf8;
use vstd::utf8::encode_utf8;
use vstd::utf8::valid_utf8;

verus! {

/// The text that trimming leaves: the line without its leading and
/// trailing whitespace.
pub uninterp spec fn trim_of(line: Seq<char>) -> Seq<char>;

/// The text that lossy UTF-8 decoding yields on arbitrary bytes.
pub uninterp spec fn lossy_of(bytes: Seq<u8>) -> Seq<char>;

/// Relies on `str::trim`: it returns the substring of the line that
/// remains once leading and trailing whitespace is removed; the result
/// depends on the line's characters alone.
#[verifier::external_body]
pub(crate) fn trim_line(line: &str) -> (r: String)
    ensures
        r@ == trim_of(line@),
{
    line.trim().to_owned()
}

/// Relies on `String::from_utf8_lossy`: it never fails, and on bytes that
/// are valid UTF-8 it returns exactly their decoding; invalid sequences
/// are replaced rather than rejected.
#[verifier::external_body]
pub(crate) fn lossy_decode(bytes: &Vec<u8>) -> (r: String)
    ensures
        r@ == lossy_of(bytes@),
        valid_utf8(bytes@) ==> r@ == decode_utf8(bytes@),
{
    String::from_utf8_lossy(bytes).into_owned()
}

/// A character sequence has an empty UTF-8 encoding exactly when it is
/// itself empty: every scalar takes at least one byte.
pub proof fn lemma_encode_utf8_empty(chars: Seq<char>)
    ensures
        encode_utf8(chars).len() == 0 <==> chars.len() == 0,
{
    if chars.len() != 0 {
        assert(encode_utf8(chars).len() > 0);
    }
}

} // verus!
