//! Texts and contents in the buffers that the engine fills.

use vstd::prelude::*;
use vstd::slice::slice_subrange;
use vstd::utf8::encode_utf8;

verus! {

/// Size of the buffers that take a path or a name from the engine.
pub const PATH_BUF_SZ: usize = 1024;

/// `bytes` holds a zero byte.
pub open spec fn holds_nul(bytes: Seq<u8>) -> bool {
    exists|i: int| 0 <= i < bytes.len() && bytes[i] == 0
}

/// `bytes`, closed by one zero byte.
pub open spec fn terminated(bytes: Seq<u8>) -> Seq<u8> {
    bytes.push(0u8)
}

/// `text` is the C string at the start of `buffer`: the bytes before the
/// first zero byte, or all of them where there is none.
pub open spec fn is_c_string(buffer: Seq<u8>, text: Seq<u8>) -> bool {
    &&& text.len() <= buffer.len()
    &&& text == buffer.take(text.len() as int)
    &&& forall|i: int| 0 <= i < text.len() ==> text[i] != 0
    &&& text.len() == buffer.len() || buffer[text.len() as int] == 0
}

/// The name that a call left in `buffer` when it answered `count`.
///
/// `count` is the number of bytes of the name as the engine counts them. A
/// negative count is none, and a count beyond the buffer tells that the
/// name did not fit: there is no name then. Otherwise the name is the C
/// string among the first `count` bytes.
pub open spec fn is_counted_name(buffer: Seq<u8>, count: int, name: Option<Seq<u8>>) -> bool {
    if 0 <= count <= buffer.len() {
        name is Some && is_c_string(buffer.take(count), name.unwrap())
    } else {
        name is None
    }
}

/// The C string of a text: its bytes in UTF-8, closed by a zero byte.
///
/// A text that holds a zero byte itself has none: the engine would read it
/// as ending there.
pub fn to_c_str(text: &str) -> (r: Option<Vec<u8>>)
    ensures
        r is Some <==> !holds_nul(encode_utf8(text@)),
        r matches Some(v) ==> v@ == terminated(encode_utf8(text@)),
{
    let bytes = text.as_bytes();
    let mut out: Vec<u8> = Vec::new();
    let mut i: usize = 0;
    while i < bytes.len()
        invariant
            i <= bytes.len(),
            bytes@ == encode_utf8(text@),
            out@ == bytes@.take(i as int),
            forall|j: int| 0 <= j < i ==> bytes@[j] != 0,
        decreases bytes.len() - i,
    {
        if bytes[i] == 0 {
            return None;
        }
        out.push(bytes[i]);
        assert(out@ =~= bytes@.take(i + 1));
        i += 1;
    }
    assert(bytes@.take(i as int) =~= bytes@);
    out.push(0u8);
    Some(out)
}

/// The C string at the start of a buffer.
pub fn from_c_str(buffer: &[u8]) -> (r: &[u8])
    ensures
        is_c_string(buffer@, r@),
{
    let mut n: usize = 0;
    while n < buffer.len() && buffer[n] != 0
        invariant
            n <= buffer@.len(),
            forall|i: int| 0 <= i < n ==> buffer@[i] != 0,
        decreases buffer@.len() - n,
    {
        n += 1;
    }
    slice_subrange(buffer, 0, n)
}

/// The name among the first `count` bytes of a buffer, where `count` is
/// what the engine answered.
pub fn from_c_str_len(buffer: &[u8], count: i32) -> (r: Option<&[u8]>)
    ensures
        is_counted_name(
            buffer@,
            count as int,
            match r {
                Some(name) => Some(name@),
                None => None,
            },
        ),
{
    if count < 0 || count as usize > buffer.len() {
        None
    } else {
        Some(from_c_str(slice_subrange(buffer, 0, count as usize)))
    }
}

/// The number of bytes of a content whose size the engine reports as
/// `size`; none where the size is negative or beyond what memory can hold.
pub fn content_length(size: i64) -> (r: Option<usize>)
    ensures
        r is Some <==> 0 <= size <= usize::MAX,
        r matches Some(n) ==> n == size,
{
    if size < 0 || size as u64 > usize::MAX as u64 {
        None
    } else {
        Some(size as usize)
    }
}

/// A buffer holds one C string only.
pub proof fn lemma_c_string_unique(buffer: Seq<u8>, a: Seq<u8>, b: Seq<u8>)
    requires
        is_c_string(buffer, a),
        is_c_string(buffer, b),
    ensures
        a == b,
{
    if a.len() < b.len() {
        assert(b[a.len() as int] == buffer[a.len() as int]);
    } else if b.len() < a.len() {
        assert(a[b.len() as int] == buffer[b.len() as int]);
    }
    assert(a =~= b);
}

/// The C string of a text that holds no zero byte and is closed by one is
/// the text.
pub proof fn lemma_c_string_of_terminated(text: Seq<u8>)
    requires
        forall|i: int| 0 <= i < text.len() ==> text[i] != 0,
    ensures
        is_c_string(text.push(0u8), text),
{
    assert(text.push(0u8).take(text.len() as int) =~= text);
}

} // verus!
