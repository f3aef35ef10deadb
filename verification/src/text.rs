//! Text that crosses to the hardware and back: names and sources that go to it
//! as C strings, names and logs that come back as bytes.

use vstd::prelude::*;
use vstd::slice::slice_subrange;
use vstd::string::StringSliceAdditionalSpecFns;
use vstd::utf8::encode_utf8_decode_utf8;
use gl::types::GLsizei;
use crate::error::ReglError;
use crate::ReglResult;

verus! {

/// The text that `String::from_utf8_lossy` reads from `bytes`: their decoding as
/// UTF-8, with a replacement character for what is no UTF-8.
pub uninterp spec fn utf8_lossy(bytes: Seq<u8>) -> Seq<char>;

/// Decodes bytes with `String::from_utf8_lossy` of the standard library, which
/// Verus has no specification for. The contract only names the result: the text
/// is a function of the bytes.
#[verifier::external_body]
fn from_utf8_lossy(bytes: &[u8]) -> (text: String)
    ensures
        text@ == utf8_lossy(bytes@),
{
    String::from_utf8_lossy(bytes).into_owned()
}

/// Whether two texts are the same, character by character.
pub fn same_text(a: &str, b: &str) -> (same: bool)
    ensures
        same == (a@ == b@),
{
    let a_bytes = a.as_bytes();
    let b_bytes = b.as_bytes();
    proof {
        // Texts with the same bytes are the same: the bytes decode to one text only.
        encode_utf8_decode_utf8(a@);
        encode_utf8_decode_utf8(b@);
    }
    if a_bytes.len() != b_bytes.len() {
        return false;
    }
    let mut i: usize = 0;
    while i < a_bytes.len()
        invariant
            a_bytes@ == a.spec_bytes(),
            b_bytes@ == b.spec_bytes(),
            a_bytes@.len() == b_bytes@.len(),
            i <= a_bytes@.len(),
            forall|k: int| 0 <= k < i ==> a_bytes@[k] == b_bytes@[k],
        decreases a_bytes@.len() - i,
    {
        if a_bytes[i] != b_bytes[i] {
            return false;
        }
        i += 1;
    }
    assert(a_bytes@ =~= b_bytes@);
    true
}

/// Whether `position` is where the first NUL byte of `bytes` stands.
pub open spec fn is_first_nul(bytes: Seq<u8>, position: int) -> bool {
    &&& 0 <= position < bytes.len()
    &&& bytes[position] == 0
    &&& forall|i: int| 0 <= i < position ==> bytes[i] != 0
}

/// Whether `bytes` hold no NUL byte.
pub open spec fn nul_free(bytes: Seq<u8>) -> bool {
    forall|i: int| 0 <= i < bytes.len() ==> bytes[i] != 0
}

/// The bytes of `text` with the NUL byte that ends a C string after them.
/// A text that holds a NUL byte itself is refused: the hardware would read it
/// only as far as that byte.
pub fn c_string(text: &str) -> (result: ReglResult<Vec<u8>>)
    ensures
        match result {
            Ok(bytes) => nul_free(text.spec_bytes()) && bytes@ == text.spec_bytes().push(0),
            Err(ReglError::NulError(position)) => is_first_nul(text.spec_bytes(), position as int),
            Err(_) => false,
        },
{
    let source = text.as_bytes();
    let mut bytes: Vec<u8> = Vec::new();
    let mut i: usize = 0;
    while i < source.len()
        invariant
            source@ == text.spec_bytes(),
            i <= source@.len(),
            bytes@ == source@.subrange(0, i as int),
            forall|k: int| 0 <= k < i ==> source@[k] != 0,
        decreases source@.len() - i,
    {
        if source[i] == 0 {
            return Err(ReglError::NulError(i));
        }
        bytes.push(source[i]);
        assert(bytes@ =~= source@.subrange(0, i + 1));
        i += 1;
    }
    assert(source@.subrange(0, i as int) =~= source@);
    bytes.push(0);
    Ok(bytes)
}

/// The name that the hardware has written into `buffer`, of which it says that
/// the first `actual_length` bytes are the name.
pub fn name_from_buffer(buffer: &[u8], actual_length: GLsizei) -> (name: String)
    requires
        0 <= actual_length <= buffer@.len(),
    ensures
        name@ == utf8_lossy(buffer@.subrange(0, actual_length as int)),
{
    from_utf8_lossy(slice_subrange(buffer, 0, actual_length as usize))
}

/// What a log is cut down to before it is read: its first `actual_length` bytes,
/// and all of it where it has no more. A negative length, read as the hardware's
/// word for "no length", cuts nothing off.
pub open spec fn log_bytes(log: Seq<u8>, actual_length: GLsizei) -> Seq<u8> {
    if 0 <= actual_length < log.len() {
        log.subrange(0, actual_length as int)
    } else {
        log
    }
}

/// The text of a log that the hardware has written into `log`, of which it says
/// that the first `actual_length` bytes are the log.
pub fn info_log(log: Vec<u8>, actual_length: GLsizei) -> (text: String)
    ensures
        text@ == utf8_lossy(log_bytes(log@, actual_length)),
{
    let ghost written = log@;
    let mut log = log;
    if actual_length >= 0 {
        log.truncate(actual_length as usize);
    }
    assert(log@ =~= log_bytes(written, actual_length));
    from_utf8_lossy(log.as_slice())
}

} // verus!
