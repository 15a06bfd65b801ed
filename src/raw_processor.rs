//! Marshalling of what the native RAW decoder hands back: text held in
//! fixed-size NUL-terminated character buffers, and the message reported
//! when a decode fails.
use vstd::prelude::*;

use crate::text::{append_decimal, decimal};
use vstd::utf8::{decode_utf8, valid_utf8};

verus! {

/// The number of characters before the first NUL of a C character buffer,
/// or the whole buffer where it holds no NUL.
pub open spec fn c_text_len(buf: Seq<i8>) -> int {
    if exists|i: int| 0 <= i < buf.len() && buf[i] == 0 {
        choose|i: int| 0 <= i < buf.len() && buf[i] == 0 && forall|j: int| 0 <= j < i ==> buf[j] != 0
    } else {
        buf.len() as int
    }
}

/// The bytes of a C character buffer up to its first NUL.
pub open spec fn c_text_bytes(buf: Seq<i8>) -> Seq<u8> {
    buf.take(c_text_len(buf)).map_values(|c: i8| c as u8)
}

/// What `String::from_utf8_lossy` makes of a byte sequence.
pub uninterp spec fn utf8_lossy_of(bytes: Seq<u8>) -> Seq<char>;

/// Relies on `String::from_utf8_lossy`: its result depends on the bytes
/// alone, and valid UTF-8 comes back as the text it encodes.
#[verifier::external_body]
fn lossy_text(bytes: &[u8]) -> (r: String)
    ensures
        r@ == utf8_lossy_of(bytes@),
        valid_utf8(bytes@) ==> r@ == decode_utf8(bytes@),
{
    String::from_utf8_lossy(bytes).into_owned()
}

/// Converts the text of a C character buffer, up to its first NUL or the
/// whole buffer where it has none, to a string; invalid UTF-8 becomes
/// replacement characters.
pub fn safe_string_from_array(arr: &[i8]) -> (r: String)
    ensures
        r@ == utf8_lossy_of(c_text_bytes(arr@)),
        valid_utf8(c_text_bytes(arr@)) ==> r@ == decode_utf8(c_text_bytes(arr@)),
{
    let n = arr.len();
    let mut bytes: Vec<u8> = Vec::new();
    let mut i: usize = 0;
    while i < n && arr[i] != 0
        invariant
            n == arr@.len(),
            i <= n,
            forall|j: int| 0 <= j < i ==> arr@[j] != 0,
            bytes@ == arr@.take(i as int).map_values(|c: i8| c as u8),
        decreases n - i,
    {
        bytes.push(arr[i] as u8);
        i = i + 1;
        assert(bytes@ =~= arr@.take(i as int).map_values(|c: i8| c as u8));
    }
    assert(c_text_len(arr@) == i) by {
        if i < n {
            assert(arr@[i as int] == 0);
            let k = c_text_len(arr@);
            assert(0 <= k < n && arr@[k] == 0 && forall|j: int| 0 <= j < k ==> arr@[j] != 0);
            if k < i {
                assert(arr@[k] != 0);
            }
            if k > i {
                assert(arr@[i as int] != 0);
            }
        }
    }
    lossy_text(bytes.as_slice())
}

/// The message for a failed native call: a label, the status code and the
/// detail that the native side gave.
pub open spec fn native_error_text(label: Seq<char>, code: int, detail: Seq<char>) -> Seq<char> {
    label + " "@ + decimal(code) + ": "@ + detail
}

/// Formats the message for a failed native call, as "<label> <code>:
/// <detail>" ("LibRaw Error -2: Unsupported file format").
pub fn native_error_message(label: &str, code: i32, detail: &str) -> (r: String)
    ensures
        r@ == native_error_text(label@, code as int, detail@),
{
    let mut msg = String::from_str(label);
    msg.append(" ");
    append_decimal(&mut msg, code);
    msg.append(": ");
    msg.append(detail);
    assert(msg@ =~= native_error_text(label@, code as int, detail@));
    msg
}

} // verus!
