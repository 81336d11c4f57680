//! Extraction of null-terminated text fields out of response buffers.
//!
//! A descriptor header may point, by an untrusted byte offset, at a
//! null-terminated text field inside the same buffer.  Extraction never
//! reads outside the buffer: an offset at or past the end yields the
//! empty string, and a field without a terminator runs to the buffer's
//! end.  The bytes are decoded as best-effort UTF-8 and the result is
//! trimmed of surrounding whitespace.

use vstd::prelude::*;

verus! {

/// Index of the first zero byte of `b` at or after `o`, or `b.len()`
/// if there is none.
pub open spec fn string_end(b: Seq<u8>, o: int) -> int
    decreases b.len() - o,
{
    if o < 0 || o >= b.len() {
        b.len() as int
    } else if b[o] == 0 {
        o
    } else {
        string_end(b, o + 1)
    }
}

/// Law: scanning for a terminator stays inside the buffer.  The field
/// starting at `o` ends at or after `o`, never past `b.len()`, holds no
/// zero byte, and stops exactly at a zero byte when one exists.
pub proof fn lemma_string_end_bounds(b: Seq<u8>, o: int)
    requires
        0 <= o <= b.len(),
    ensures
        o <= string_end(b, o) <= b.len(),
        forall|k: int| o <= k < string_end(b, o) ==> b[k] != 0,
        string_end(b, o) < b.len() ==> b[string_end(b, o)] == 0,
    decreases b.len() - o,
{
    if o < b.len() && b[o] != 0 {
        lemma_string_end_bounds(b, o + 1);
    }
}

/// A position `e` with no zero byte before it and a zero byte (or the
/// buffer's end) at it is where the field ends.
proof fn lemma_string_end_at(b: Seq<u8>, o: int, e: int)
    requires
        0 <= o <= e <= b.len(),
        forall|k: int| o <= k < e ==> b[k] != 0,
        e == b.len() || b[e] == 0,
    ensures
        string_end(b, o) == e,
    decreases e - o,
{
    if o < e {
        lemma_string_end_at(b, o + 1, e);
    }
}

/// Text decoded from the byte sequence `b`, with invalid UTF-8
/// sequences replaced.  Named, not spelled out: the result stands for
/// whatever `String::from_utf8_lossy` returns, which depends on the
/// bytes alone.
pub uninterp spec fn lossy_text_of(b: Seq<u8>) -> Seq<char>;

/// `s` with leading and trailing whitespace removed.  Named, not
/// spelled out: the result stands for whatever `str::trim` returns,
/// which depends on the characters alone.
pub uninterp spec fn trimmed_of(s: Seq<char>) -> Seq<char>;

/// Relies on `String::from_utf8_lossy`: decodes the bytes as UTF-8,
/// replacing invalid sequences; infallible, and empty input decodes to
/// the empty string.
#[verifier::external_body]
fn decode_lossy(b: &Vec<u8>) -> (r: String)
    ensures
        r@ == lossy_text_of(b@),
        b@.len() == 0 ==> r@.len() == 0,
{
    String::from_utf8_lossy(b).into_owned()
}

/// Relies on `str::trim`: removes leading and trailing whitespace;
/// infallible, and the empty string stays empty.
#[verifier::external_body]
fn trim_text(s: &String) -> (r: String)
    ensures
        r@ == trimmed_of(s@),
        s@.len() == 0 ==> r@.len() == 0,
{
    s.trim().to_string()
}

/// The text field of `b` designated by offset `o`: empty when `o` is
/// at or past the end, otherwise the bytes from `o` up to the first
/// zero byte (or the buffer's end), decoded and trimmed.
pub open spec fn extracted_text(b: Seq<u8>, o: int) -> Seq<char> {
    if o >= b.len() {
        Seq::<char>::empty()
    } else {
        trimmed_of(lossy_text_of(b.subrange(o, string_end(b, o))))
    }
}

/// Extracts the null-terminated text field of `buffer` at `offset`.
/// Never reads outside `buffer` and never fails, whatever the offset
/// and contents.
pub fn extract_string(buffer: &[u8], offset: usize) -> (r: String)
    ensures
        r@ == extracted_text(buffer@, offset as int),
{
    let len = buffer.len();
    let start = if offset < len {
        offset
    } else {
        len
    };
    let mut end = start;
    while end < len && buffer[end] != 0
        invariant
            start <= end <= len,
            len == buffer@.len(),
            forall|k: int| start <= k < end ==> buffer@[k] != 0,
        decreases len - end,
    {
        end = end + 1;
    }
    proof {
        lemma_string_end_at(buffer@, start as int, end as int);
    }
    let mut field: Vec<u8> = Vec::new();
    let mut i = start;
    while i < end
        invariant
            start <= i <= end <= len,
            len == buffer@.len(),
            field@ == buffer@.subrange(start as int, i as int),
        decreases end - i,
    {
        field.push(buffer[i]);
        proof {
            assert(field@ =~= buffer@.subrange(start as int, i + 1));
        }
        i = i + 1;
    }
    let decoded = decode_lossy(&field);
    let trimmed = trim_text(&decoded);
    proof {
        if offset >= buffer@.len() {
            assert(field@.len() == 0);
            assert(trimmed@ =~= Seq::<char>::empty());
        } else {
            assert(field@ =~= buffer@.subrange(offset as int, string_end(buffer@, offset as int)));
        }
    }
    trimmed
}

} // verus!
