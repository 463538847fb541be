//! Texts at the boundary: what can be handed over as a C string, and how a
//! buffer that came back is read.

use vstd::prelude::*;
use vstd::slice::slice_subrange;
use vstd::utf8::{decode_utf8, valid_utf8};
use crate::error::CGroupError;

verus! {

/// Looks for a NUL character, which would end a C string before its end.
pub fn has_nul(text: &str) -> (found: bool)
    ensures
        found == text@.contains('\0'),
{
    let n: usize = text.unicode_len();
    let mut i: usize = 0;
    while i < n
        invariant
            n == text@.len(),
            i <= n,
            forall|j: int| 0 <= j < i ==> text@[j] != '\0',
        decreases n - i,
    {
        if text.get_char(i) == '\0' {
            return true;
        }
        i += 1;
    }
    false
}

/// Accepts a text that can be handed over as a C string and refuses one
/// that holds a NUL character.
pub fn check_text(text: &str) -> (outcome: Result<(), CGroupError>)
    ensures
        outcome == spec_check_text(text@),
{
    if has_nul(text) {
        Err(CGroupError::InteriorNul)
    } else {
        Ok(())
    }
}

/// A text is refused exactly when a NUL character occurs in it.
pub open spec fn spec_check_text(text: Seq<char>) -> Result<(), CGroupError> {
    if text.contains('\0') {
        Err(CGroupError::InteriorNul)
    } else {
        Ok(())
    }
}

/// The characters that count as white space (the Unicode property
/// `White_Space`).
pub open spec fn spec_is_white_space(c: char) -> bool {
    let u = c as u32;
    ||| 0x09 <= u <= 0x0D
    ||| u == 0x20
    ||| u == 0x85
    ||| u == 0xA0
    ||| u == 0x1680
    ||| 0x2000 <= u <= 0x200A
    ||| u == 0x2028
    ||| u == 0x2029
    ||| u == 0x202F
    ||| u == 0x205F
    ||| u == 0x3000
}

/// Tells whether a character is white space.
pub fn is_white_space(c: char) -> (white: bool)
    ensures
        white == spec_is_white_space(c),
{
    let u: u32 = c as u32;
    (0x09 <= u && u <= 0x0D) || u == 0x20 || u == 0x85 || u == 0xA0 || u == 0x1680 || (0x2000 <= u
        && u <= 0x200A) || u == 0x2028 || u == 0x2029 || u == 0x202F || u == 0x205F || u == 0x3000
}

/// A text is blank when nothing but white space is in it; the empty text is
/// blank.
pub open spec fn spec_is_blank(text: Seq<char>) -> bool {
    forall|i: int| 0 <= i < text.len() ==> spec_is_white_space(#[trigger] text[i])
}

/// Tells whether a text is blank.
pub fn is_blank(text: &str) -> (blank: bool)
    ensures
        blank == spec_is_blank(text@),
{
    let n: usize = text.unicode_len();
    let mut i: usize = 0;
    while i < n
        invariant
            n == text@.len(),
            i <= n,
            forall|j: int| 0 <= j < i ==> spec_is_white_space(#[trigger] text@[j]),
        decreases n - i,
    {
        if !is_white_space(text.get_char(i)) {
            return false;
        }
        i += 1;
    }
    true
}

/// The length of the C string at the start of a buffer: the place of the
/// first zero byte, or the whole length where the buffer holds none.
pub open spec fn spec_c_str_len(buffer: Seq<u8>) -> int {
    match buffer.index_of_first(0u8) {
        Some(at) => at,
        None => buffer.len() as int,
    }
}

/// The bytes of the C string at the start of a buffer.
pub open spec fn spec_c_str_bytes(buffer: Seq<u8>) -> Seq<u8> {
    buffer.take(spec_c_str_len(buffer))
}

/// A place is the length of the C string if no zero byte comes before it
/// and it is a zero byte or the end of the buffer.
pub proof fn lemma_c_str_len(buffer: Seq<u8>, n: int)
    requires
        0 <= n <= buffer.len(),
        forall|j: int| 0 <= j < n ==> buffer[j] != 0u8,
        n < buffer.len() ==> buffer[n] == 0u8,
    ensures
        spec_c_str_len(buffer) == n,
{
    buffer.index_of_first_ensures(0u8);
    match buffer.index_of_first(0u8) {
        Some(at) => {
            if at < n {
                assert(buffer[at] != 0u8);
            } else if n < at {
                assert(buffer[n] == 0u8);
            }
        },
        None => {
            if n < buffer.len() {
                assert(buffer.contains(buffer[n]));
            }
        },
    }
}

/// Measures the C string at the start of a buffer.
pub fn c_str_len(buffer: &[u8]) -> (n: usize)
    ensures
        n == spec_c_str_len(buffer@),
        n <= buffer@.len(),
{
    let mut i: usize = 0;
    while i < buffer.len()
        invariant
            i <= buffer@.len(),
            forall|j: int| 0 <= j < i ==> buffer@[j] != 0u8,
        decreases buffer@.len() - i,
    {
        if buffer[i] == 0 {
            proof {
                lemma_c_str_len(buffer@, i as int);
            }
            return i;
        }
        i += 1;
    }
    proof {
        lemma_c_str_len(buffer@, i as int);
    }
    i
}

/// What the lossy UTF-8 decoding of std makes of a sequence of bytes.
pub uninterp spec fn lossy_utf8(bytes: Seq<u8>) -> Seq<char>;

/// Calls `String::from_utf8_lossy` and takes the text as a `String`. The
/// contract names the text that this decoding gives, and says what std
/// documents of it: bytes that are valid UTF-8 decode to the text they
/// encode. Of other bytes no more is claimed than that the text depends on
/// the bytes alone.
#[verifier::external_body]
fn decode_lossy(bytes: &[u8]) -> (text: String)
    ensures
        text@ == lossy_utf8(bytes@),
        valid_utf8(bytes@) ==> text@ == decode_utf8(bytes@),
{
    String::from_utf8_lossy(bytes).into_owned()
}

/// The text of the C string at the start of a buffer.
pub open spec fn spec_c_str_text(buffer: Seq<u8>) -> Seq<char> {
    lossy_utf8(spec_c_str_bytes(buffer))
}

/// A text is what a buffer reads as: the lenient decoding of its C string,
/// which for a C string in valid UTF-8 is the text that it encodes.
pub open spec fn reads_as(buffer: Seq<u8>, text: Seq<char>) -> bool {
    &&& text == spec_c_str_text(buffer)
    &&& valid_utf8(spec_c_str_bytes(buffer)) ==> text == decode_utf8(spec_c_str_bytes(buffer))
}

/// Reads the C string at the start of a buffer as a text: the bytes before
/// the first zero byte, decoded leniently.
pub fn c_str_text(buffer: &[u8]) -> (text: String)
    ensures
        reads_as(buffer@, text@),
{
    let n: usize = c_str_len(buffer);
    let bytes = slice_subrange(buffer, 0, n);
    assert(bytes@ =~= spec_c_str_bytes(buffer@));
    decode_lossy(bytes)
}

} // verus!
