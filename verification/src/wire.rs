//! Byte layout primitives: big-endian integers and length-prefixed fields.
//!
//! A field is a two-byte big-endian length followed by that many bytes, so a
//! field holds at most 65535 bytes. A text field holds the UTF-8 bytes of a
//! text. Readers take a byte string and a position, and give back the value
//! and the position behind it.

use vstd::prelude::*;
use vstd::slice::*;
use vstd::string::*;
use vstd::utf8::*;

verus! {

/// The error of `String::from_utf8`, which carries the rejected bytes.
#[verifier::external_type_specification]
#[verifier::external_body]
pub struct ExFromUtf8Error(std::string::FromUtf8Error);

/// `String::from_utf8` of std accepts exactly the byte strings that are valid
/// UTF-8, and then gives the text that they encode.
pub assume_specification[ String::from_utf8 ](bytes: Vec<u8>) -> (r: Result<
    String,
    std::string::FromUtf8Error,
>)
    ensures
        r is Ok <==> valid_utf8(bytes@),
        r matches Ok(text) ==> text@ == decode_utf8(bytes@),
;

/// The largest number of bytes that a field holds.
pub const MAX_FIELD: usize = 65535;

/// Two bytes for a number below 65536, the high byte first.
pub open spec fn be16(n: int) -> Seq<u8> {
    seq![(n / 256) as u8, (n % 256) as u8]
}

/// Four bytes for a number below 2^32, the high byte first.
#[verifier::opaque]
pub open spec fn be32(n: int) -> Seq<u8> {
    be16(n / 65536) + be16(n % 65536)
}

/// Eight bytes for a number below 2^64, the high byte first.
#[verifier::opaque]
pub open spec fn be64(n: int) -> Seq<u8> {
    be32(n / 4294967296) + be32(n % 4294967296)
}

/// The number that the two bytes at `at` stand for.
pub open spec fn read16(b: Seq<u8>, at: int) -> int {
    b[at] as int * 256 + b[at + 1] as int
}

/// The number that the four bytes at `at` stand for.
#[verifier::opaque]
pub open spec fn read32(b: Seq<u8>, at: int) -> int {
    read16(b, at) * 65536 + read16(b, at + 2)
}

/// The number that the eight bytes at `at` stand for.
#[verifier::opaque]
pub open spec fn read64(b: Seq<u8>, at: int) -> int {
    read32(b, at) * 4294967296 + read32(b, at + 4)
}

/// A byte string behind its length.
pub open spec fn field(content: Seq<u8>) -> Seq<u8> {
    be16(content.len() as int) + content
}

/// A text as a field of its UTF-8 bytes.
#[verifier::opaque]
pub open spec fn text_field(text: Seq<char>) -> Seq<u8> {
    field(encode_utf8(text))
}

/// A text that may be absent: a zero byte, or a one byte and the text field.
#[verifier::opaque]
pub open spec fn optional_text_field(text: Option<Seq<char>>) -> Seq<u8> {
    match text {
        None => seq![0u8],
        Some(t) => seq![1u8] + text_field(t),
    }
}

/// Whether a text fits in a field.
pub open spec fn fits(text: Seq<char>) -> bool {
    encode_utf8(text).len() <= MAX_FIELD
}

/// The field that starts at `at`, and the position behind it.
#[verifier::opaque]
pub open spec fn field_at(b: Seq<u8>, at: int) -> Option<(Seq<u8>, int)> {
    if at + 2 > b.len() {
        None
    } else if at + 2 + read16(b, at) > b.len() {
        None
    } else {
        Some((b.subrange(at + 2, at + 2 + read16(b, at)), at + 2 + read16(b, at)))
    }
}

/// The text field that starts at `at`, and the position behind it.
#[verifier::opaque]
pub open spec fn text_at(b: Seq<u8>, at: int) -> Option<(Seq<char>, int)> {
    match field_at(b, at) {
        None => None,
        Some((content, next)) => if valid_utf8(content) {
            Some((decode_utf8(content), next))
        } else {
            None
        },
    }
}

/// The optional text field that starts at `at`, and the position behind it.
#[verifier::opaque]
pub open spec fn optional_text_at(b: Seq<u8>, at: int) -> Option<(Option<Seq<char>>, int)> {
    if at + 1 > b.len() {
        None
    } else if b[at] == 0 {
        Some((None, at + 1))
    } else if b[at] == 1 {
        match text_at(b, at + 1) {
            None => None,
            Some((text, next)) => Some((Some(text), next)),
        }
    } else {
        None
    }
}

/// Numbers written with `be16`, `be32` and `be64` are read back.
pub proof fn lemma_numbers_read_back(head: Seq<u8>, n: int, tail: Seq<u8>)
    ensures
        0 <= n < 65536 ==> read16(head + be16(n) + tail, head.len() as int) == n,
        0 <= n < 4294967296 ==> read32(head + be32(n) + tail, head.len() as int) == n,
        0 <= n < 18446744073709551616 ==> read64(head + be64(n) + tail, head.len() as int) == n,
        be16(n).len() == 2,
        be32(n).len() == 4,
        be64(n).len() == 8,
{
    reveal(be32);
    reveal(be64);
    reveal(read32);
    reveal(read64);
    let at = head.len() as int;
    if 0 <= n < 65536 {
        let b = head + be16(n) + tail;
        assert(b[at] == be16(n)[0] && b[at + 1] == be16(n)[1]);
    }
    if 0 <= n < 4294967296 {
        let b = head + be32(n) + tail;
        let hi = n / 65536;
        let lo = n % 65536;
        assert(b[at] == be16(hi)[0] && b[at + 1] == be16(hi)[1]);
        assert(b[at + 2] == be16(lo)[0] && b[at + 3] == be16(lo)[1]);
        assert(read16(b, at) == hi);
        assert(read16(b, at + 2) == lo);
    }
    if 0 <= n < 18446744073709551616 {
        let b = head + be64(n) + tail;
        let hi = n / 4294967296;
        let lo = n % 4294967296;
        let hh = hi / 65536;
        let hl = hi % 65536;
        let lh = lo / 65536;
        let ll = lo % 65536;
        assert(b[at] == be16(hh)[0] && b[at + 1] == be16(hh)[1]);
        assert(b[at + 2] == be16(hl)[0] && b[at + 3] == be16(hl)[1]);
        assert(b[at + 4] == be16(lh)[0] && b[at + 5] == be16(lh)[1]);
        assert(b[at + 6] == be16(ll)[0] && b[at + 7] == be16(ll)[1]);
        assert(read16(b, at) == hh);
        assert(read16(b, at + 2) == hl);
        assert(read16(b, at + 4) == lh);
        assert(read16(b, at + 6) == ll);
        assert(read32(b, at) == hi);
        assert(read32(b, at + 4) == lo);
    }
}

/// A field is read back, whatever stands before and behind it.
pub proof fn lemma_field_reads_back(head: Seq<u8>, content: Seq<u8>, tail: Seq<u8>)
    requires
        content.len() <= MAX_FIELD,
    ensures
        field_at(head + field(content) + tail, head.len() as int) == Some(
            (content, (head.len() + 2 + content.len()) as int),
        ),
{
    reveal(field_at);
    let at = head.len() as int;
    let b = head + field(content) + tail;
    let n = content.len() as int;
    assert(b =~= head + be16(n) + (content + tail));
    lemma_numbers_read_back(head, n, content + tail);
    assert(read16(b, at) == n);
    assert(b.subrange(at + 2, at + 2 + n) =~= content);
}

/// A text field is read back, whatever stands before and behind it.
pub proof fn lemma_text_reads_back(head: Seq<u8>, text: Seq<char>, tail: Seq<u8>)
    requires
        fits(text),
    ensures
        text_at(head + text_field(text) + tail, head.len() as int) == Some(
            (text, (head.len() + text_field(text).len()) as int),
        ),
{
    reveal(text_at);
    reveal(text_field);
    lemma_field_reads_back(head, encode_utf8(text), tail);
    encode_utf8_valid_utf8(text);
    encode_utf8_decode_utf8(text);
}

/// An optional text field is read back, whatever stands before and behind it.
pub proof fn lemma_optional_text_reads_back(head: Seq<u8>, text: Option<Seq<char>>, tail: Seq<u8>)
    requires
        text matches Some(t) ==> fits(t),
    ensures
        optional_text_at(head + optional_text_field(text) + tail, head.len() as int) == Some(
            (text, (head.len() + optional_text_field(text).len()) as int),
        ),
{
    reveal(optional_text_at);
    reveal(optional_text_field);
    let at = head.len() as int;
    let b = head + optional_text_field(text) + tail;
    match text {
        None => {
            assert(b[at] == 0);
        },
        Some(t) => {
            assert(b[at] == 1);
            let head1 = head + seq![1u8];
            assert(b =~= head1 + text_field(t) + tail);
            lemma_text_reads_back(head1, t, tail);
        },
    }
}

/// Appends `be16(n)`.
pub fn push_u16(out: &mut Vec<u8>, n: u16)
    ensures
        final(out)@ == old(out)@ + be16(n as int),
{
    out.push((n / 256) as u8);
    out.push((n % 256) as u8);
    assert(out@ =~= old(out)@ + be16(n as int));
}

/// Appends `be32(n)`.
pub fn push_u32(out: &mut Vec<u8>, n: u32)
    ensures
        final(out)@ == old(out)@ + be32(n as int),
{
    reveal(be32);
    push_u16(out, (n / 65536) as u16);
    push_u16(out, (n % 65536) as u16);
    assert(out@ =~= old(out)@ + be32(n as int));
}

/// Appends `be64(n)`.
pub fn push_u64(out: &mut Vec<u8>, n: u64)
    ensures
        final(out)@ == old(out)@ + be64(n as int),
{
    reveal(be64);
    push_u32(out, (n / 4294967296) as u32);
    push_u32(out, (n % 4294967296) as u32);
    assert(out@ =~= old(out)@ + be64(n as int));
}

/// Appends the field of a text, or leaves `out` as it is where the text does
/// not fit in a field.
pub fn push_text(out: &mut Vec<u8>, text: &str) -> (done: bool)
    ensures
        done == fits(text@),
        done ==> final(out)@ == old(out)@ + text_field(text@),
        !done ==> final(out)@ == old(out)@,
{
    reveal(text_field);
    let bytes = text.as_bytes();
    if bytes.len() > MAX_FIELD {
        return false;
    }
    push_u16(out, bytes.len() as u16);
    out.extend_from_slice(bytes);
    assert(out@ =~= old(out)@ + text_field(text@));
    true
}

/// The number that the two bytes at `at` stand for.
pub fn get_u16(b: &[u8], at: usize) -> (n: u16)
    requires
        at + 2 <= b@.len(),
    ensures
        n as int == read16(b@, at as int),
{
    (b[at] as u16) * 256 + (b[at + 1] as u16)
}

/// The number that the four bytes at `at` stand for.
pub fn get_u32(b: &[u8], at: usize) -> (n: u32)
    requires
        at + 4 <= b@.len(),
    ensures
        n as int == read32(b@, at as int),
{
    reveal(read32);
    let len = b.len();
    assert(at + 4 <= len);
    (get_u16(b, at) as u32) * 65536 + (get_u16(b, at + 2) as u32)
}

/// The number that the eight bytes at `at` stand for.
pub fn get_u64(b: &[u8], at: usize) -> (n: u64)
    requires
        at + 8 <= b@.len(),
    ensures
        n as int == read64(b@, at as int),
{
    reveal(read64);
    let len = b.len();
    assert(at + 8 <= len);
    (get_u32(b, at) as u64) * 4294967296 + (get_u32(b, at + 4) as u64)
}

/// The text field that starts at `at`, and the position behind it.
pub fn get_text(b: &[u8], at: usize) -> (r: Option<(String, usize)>)
    requires
        at <= b@.len(),
    ensures
        r is Some <==> text_at(b@, at as int) is Some,
        r matches Some((text, next)) ==> text_at(b@, at as int) == Some((text@, next as int))
            && next <= b@.len(),
{
    reveal(field_at);
    reveal(text_at);
    let len = b.len();
    if len - at < 2 {
        return None;
    }
    let n = get_u16(b, at) as usize;
    if len - at - 2 < n {
        return None;
    }
    let content = slice_to_vec(slice_subrange(b, at + 2, at + 2 + n));
    match String::from_utf8(content) {
        Ok(text) => Some((text, at + 2 + n)),
        Err(_) => None,
    }
}

/// The optional text field that starts at `at`, and the position behind it.
pub fn get_optional_text(b: &[u8], at: usize) -> (r: Option<(Option<String>, usize)>)
    requires
        at <= b@.len(),
    ensures
        r is Some <==> optional_text_at(b@, at as int) is Some,
        r matches Some((text, next)) ==> next <= b@.len() && optional_text_at(b@, at as int)
            == Some(
            (
                match text {
                    Some(t) => Some(t@),
                    None => None,
                },
                next as int,
            ),
        ),
{
    reveal(optional_text_at);
    if b.len() - at < 1 {
        return None;
    }
    let mark = b[at];
    if mark == 0 {
        Some((None, at + 1))
    } else if mark == 1 {
        match get_text(b, at + 1) {
            Some((text, next)) => Some((Some(text), next)),
            None => None,
        }
    } else {
        None
    }
}

} // verus!
