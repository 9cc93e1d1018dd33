//! Null-terminated byte strings, as the protocol engine takes and gives them.
use vstd::prelude::*;
use vstd::string::StringSliceAdditionalSpecFns;
use vstd::utf8::{decode_utf8, valid_utf8};

use crate::error::{Error, Result};

verus! {

/// Whether a byte sequence holds a null byte.
pub open spec fn has_nul(b: Seq<u8>) -> bool {
    exists|i: int| 0 <= i < b.len() && b[i] == 0
}

/// `pos` is the place of the first null byte of `b`.
pub open spec fn is_first_nul(b: Seq<u8>, pos: int) -> bool {
    &&& 0 <= pos < b.len()
    &&& b[pos] == 0
    &&& forall|j: int| 0 <= j < pos ==> b[j] != 0
}

/// The bytes of `b` before its first null byte (all of them if it has none).
pub open spec fn until_nul(b: Seq<u8>) -> Seq<u8>
    decreases b.len(),
{
    if b.len() == 0 {
        b
    } else if b[0] == 0 {
        Seq::empty()
    } else {
        seq![b[0]] + until_nul(b.drop_first())
    }
}

/// Checks that a string has no null byte and gives its bytes followed by the
/// terminating null byte. The check is made before anything is handed on, so
/// a string with an embedded null byte never reaches the device.
pub fn c_string(s: &str) -> (r: Result<Vec<u8>>)
    ensures
        r is Ok <==> !has_nul(s.spec_bytes()),
        r matches Ok(v) ==> v@ == s.spec_bytes().push(0),
        r matches Err(e) ==> (e matches Error::NulError(pos) && is_first_nul(
            s.spec_bytes(),
            pos as int,
        )),
{
    let bytes: &[u8] = s.as_bytes();
    let mut out: Vec<u8> = Vec::new();
    let mut i: usize = 0;
    while i < bytes.len()
        invariant
            bytes@ == s.spec_bytes(),
            i <= bytes@.len(),
            out@ == bytes@.subrange(0, i as int),
            forall|j: int| 0 <= j < i ==> bytes@[j] != 0,
        decreases bytes@.len() - i,
    {
        if bytes[i] == 0 {
            return Err(Error::NulError(i));
        }
        out.push(bytes[i]);
        i = i + 1;
    }
    assert(out@ =~= bytes@);
    out.push(0);
    Ok(out)
}

/// A name for the text that `String::from_utf8_lossy` makes of a byte sequence.
pub uninterp spec fn lossy_text(b: Seq<u8>) -> Seq<char>;

/// Relies on String::from_utf8_lossy: a result that depends on the bytes alone,
/// and that decodes them exactly when they are valid UTF-8.
#[verifier::external_body]
fn from_utf8_lossy(b: &[u8]) -> (r: String)
    ensures
        r@ == lossy_text(b@),
        valid_utf8(b@) ==> r@ == decode_utf8(b@),
{
    String::from_utf8_lossy(b).into_owned()
}

/// The text of a null-terminated string held in a fixed-size native buffer:
/// the bytes before the first null byte, decoded as UTF-8 with invalid
/// sequences replaced.
pub fn c_str(buf: &[u8]) -> (r: String)
    ensures
        r@ == lossy_text(until_nul(buf@)),
        valid_utf8(until_nul(buf@)) ==> r@ == decode_utf8(until_nul(buf@)),
{
    let mut end: usize = 0;
    while end < buf.len() && buf[end] != 0
        invariant
            end <= buf@.len(),
            forall|j: int| 0 <= j < end ==> buf@[j] != 0,
        decreases buf@.len() - end,
    {
        end = end + 1;
    }
    proof {
        lemma_until_nul(buf@, end as int);
    }
    let text = vstd::slice::slice_subrange(buf, 0, end);
    from_utf8_lossy(text)
}

/// The bytes before the first null byte are those before `end`, when `end`
/// is that null byte's place or the end of the sequence.
pub(crate) proof fn lemma_until_nul(b: Seq<u8>, end: int)
    requires
        0 <= end <= b.len(),
        forall|j: int| 0 <= j < end ==> b[j] != 0,
        end == b.len() || b[end] == 0,
    ensures
        until_nul(b) == b.subrange(0, end),
    decreases end,
{
    if end == 0 {
        if b.len() == 0 {
            assert(b =~= b.subrange(0, 0));
        } else {
            assert(until_nul(b) =~= b.subrange(0, 0));
        }
    } else {
        lemma_until_nul(b.drop_first(), end - 1);
        assert(until_nul(b) =~= b.subrange(0, end));
    }
}

/// Bytes without a null byte, once terminated, read back as native text
/// give the same bytes again.
pub proof fn lemma_c_string_round_trip(b: Seq<u8>)
    requires
        !has_nul(b),
    ensures
        until_nul(b.push(0)) == b,
{
    lemma_until_nul(b.push(0), b.len() as int);
    assert(b.push(0).subrange(0, b.len() as int) =~= b);
}

} // verus!
