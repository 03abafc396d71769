//! Lower-case hexadecimal text for byte strings.
//!
//! Two characters stand for each byte, the high four bits first. Only the
//! digits `0`-`9` and the letters `a`-`f` are read back, so every byte string
//! has exactly one text and every accepted text exactly one byte string.

use vstd::prelude::*;
use vstd::string::*;
use vstd::utf8::*;

verus! {

/// `String::push` of std appends one character to the end of the text.
pub assume_specification[ String::push ](text: &mut String, ch: char)
    ensures
        final(text)@ == old(text)@.push(ch),
;

/// The character that stands for a four-bit value.
pub open spec fn digit_char(n: int) -> char {
    if n < 10 {
        (n + 48) as char
    } else {
        (n + 87) as char
    }
}

/// The four-bit value that a character stands for, if it is a digit of this
/// alphabet.
pub open spec fn digit_value(c: char) -> Option<int> {
    if 48 <= c as int <= 57 {
        Some(c as int - 48)
    } else if 97 <= c as int <= 102 {
        Some(c as int - 87)
    } else {
        None
    }
}

/// The half of `bytes` that the character at position `i` of its text shows.
pub open spec fn nibble_at(bytes: Seq<u8>, i: int) -> int {
    if i % 2 == 0 {
        bytes[i / 2] as int / 16
    } else {
        bytes[i / 2] as int % 16
    }
}

/// The text of a byte string.
pub open spec fn hex_text(bytes: Seq<u8>) -> Seq<char> {
    Seq::new(2 * bytes.len(), |i: int| digit_char(nibble_at(bytes, i)))
}

/// Whether `text` is the text of some byte string.
pub open spec fn is_hex_text(text: Seq<char>) -> bool {
    &&& text.len() % 2 == 0
    &&& forall|i: int| 0 <= i < text.len() ==> (#[trigger] digit_value(text[i])) is Some
}

/// The byte that the pair of characters starting at `2 * i` stands for.
pub open spec fn byte_at(text: Seq<char>, i: int) -> u8 {
    (16 * digit_value(text[2 * i]).unwrap() + digit_value(text[2 * i + 1]).unwrap()) as u8
}

/// The byte string that `text` stands for, if there is one.
pub open spec fn hex_bytes(text: Seq<char>) -> Option<Seq<u8>> {
    if is_hex_text(text) {
        Some(Seq::new(text.len() / 2, |i: int| byte_at(text, i)))
    } else {
        None
    }
}

/// Reading the text of a byte string gives the byte string back.
pub proof fn lemma_text_reads_back(bytes: Seq<u8>)
    ensures
        hex_bytes(hex_text(bytes)) == Some(bytes),
{
    let text = hex_text(bytes);
    assert forall|i: int| 0 <= i < text.len() implies (#[trigger] digit_value(text[i])) is Some by {
        assert(0 <= nibble_at(bytes, i) < 16);
    }
    assert(is_hex_text(text));
    let back = hex_bytes(text).unwrap();
    assert(back.len() == bytes.len());
    assert forall|i: int| 0 <= i < bytes.len() implies back[i] == bytes[i] by {
        assert(nibble_at(bytes, 2 * i) == bytes[i] as int / 16);
        assert(nibble_at(bytes, 2 * i + 1) == bytes[i] as int % 16);
        assert(digit_value(text[2 * i]) == Some(bytes[i] as int / 16));
        assert(digit_value(text[2 * i + 1]) == Some(bytes[i] as int % 16));
    }
    assert(back =~= bytes);
}

/// The text of a byte string holds no full stop.
pub proof fn lemma_text_has_no_stop(text: Seq<char>, i: int)
    requires
        is_hex_text(text),
        0 <= i < text.len(),
    ensures
        text[i] != '.',
{
    assert(digit_value(text[i]) is Some);
}

/// The character for a value below sixteen.
pub fn digit(n: u8) -> (c: char)
    requires
        n < 16,
    ensures
        c == digit_char(n as int),
{
    if n < 10 {
        (n + 48) as char
    } else {
        (n + 87) as char
    }
}

/// The value of an ASCII code that is a digit of this alphabet.
pub fn value(code: u8) -> (v: Option<u8>)
    ensures
        v is Some <==> digit_value(code as char) is Some,
        v matches Some(n) ==> n < 16 && digit_value(code as char) == Some(n as int),
{
    if 48 <= code && code <= 57 {
        Some(code - 48)
    } else if 97 <= code && code <= 102 {
        Some(code - 87)
    } else {
        None
    }
}

/// Appends the text of `bytes` to `out`.
pub fn push_hex(out: &mut String, bytes: &[u8])
    ensures
        final(out)@ == old(out)@ + hex_text(bytes@),
{
    let ghost start = out@;
    let n = bytes.len();
    let mut i: usize = 0;
    while i < n
        invariant
            n == bytes@.len(),
            i <= n,
            out@ == start + hex_text(bytes@).take(2 * i as int),
        decreases n - i,
    {
        let b = bytes[i];
        out.push(digit(b / 16));
        out.push(digit(b % 16));
        proof {
            let text = hex_text(bytes@);
            assert(nibble_at(bytes@, 2 * i as int) == b as int / 16);
            assert(nibble_at(bytes@, 2 * i as int + 1) == b as int % 16);
            assert(text.take(2 * (i + 1) as int) =~= text.take(2 * i as int).push(
                text[2 * i as int],
            ).push(text[2 * i as int + 1]));
            assert(out@ =~= start + text.take(2 * (i + 1) as int));
        }
        i = i + 1;
    }
    proof {
        assert(hex_text(bytes@).take(2 * n as int) =~= hex_text(bytes@));
    }
}

/// The text of `bytes`.
pub fn to_hex(bytes: &[u8]) -> (text: String)
    ensures
        text@ == hex_text(bytes@),
{
    let mut text = String::new();
    push_hex(&mut text, bytes);
    assert(text@ =~= hex_text(bytes@));
    text
}

/// Whether `codes` holds, place by place, the code of each character of
/// `text`.
pub open spec fn codes_match(codes: Seq<u8>, text: Seq<char>) -> bool {
    &&& codes.len() == text.len()
    &&& forall|i: int| 0 <= i < text.len() ==> (#[trigger] text[i]) as int == codes[i] as int
}

/// Reads the part `codes[from..to]` of an ASCII text as a byte string.
///
/// `shown` is the text whose characters the codes are; the result is the byte
/// string that its part from `from` to `to` stands for.
pub(crate) fn read_hex(
    codes: &[u8],
    from: usize,
    to: usize,
    Ghost(shown): Ghost<Seq<char>>,
) -> (r: Option<Vec<u8>>)
    requires
        from <= to <= codes@.len(),
        codes_match(codes@, shown),
    ensures
        r is Some <==> hex_bytes(shown.subrange(from as int, to as int)) is Some,
        r matches Some(b) ==> Some(b@) == hex_bytes(shown.subrange(from as int, to as int)),
{
    let ghost part = shown.subrange(from as int, to as int);
    if (to - from) % 2 != 0 {
        return None;
    }
    let count = (to - from) / 2;
    let mut out: Vec<u8> = Vec::new();
    let mut k: usize = 0;
    while k < count
        invariant
            from <= to <= codes@.len(),
            codes_match(codes@, shown),
            part == shown.subrange(from as int, to as int),
            count == (to - from) / 2,
            (to - from) % 2 == 0,
            k <= count,
            out@.len() == k,
            forall|i: int| 0 <= i < 2 * k ==> (#[trigger] digit_value(part[i])) is Some,
            forall|i: int| 0 <= i < k ==> out@[i] == byte_at(part, i),
        decreases count - k,
    {
        let hi_code = codes[from + 2 * k];
        let lo_code = codes[from + 2 * k + 1];
        proof {
            assert(part[2 * k as int] == shown[from + 2 * k]);
            assert(part[2 * k as int + 1] == shown[from + 2 * k + 1]);
            assert(part[2 * k as int] == hi_code as char);
            assert(part[2 * k as int + 1] == lo_code as char);
        }
        let hi = match value(hi_code) {
            Some(v) => v,
            None => {
                return None;
            },
        };
        let lo = match value(lo_code) {
            Some(v) => v,
            None => {
                return None;
            },
        };
        out.push(hi * 16 + lo);
        k = k + 1;
    }
    proof {
        assert(is_hex_text(part));
        assert(out@ =~= hex_bytes(part).unwrap());
    }
    Some(out)
}

/// The ASCII codes of a text, if every character of it is ASCII.
pub(crate) fn ascii_codes(text: &str) -> (r: Option<&[u8]>)
    ensures
        r is Some <==> is_ascii_chars(text@),
        r matches Some(codes) ==> codes_match(codes@, text@),
{
    if text.is_ascii() {
        let codes = text.as_bytes();
        proof {
            is_ascii_chars_encode_utf8(text@);
            assert forall|i: int| 0 <= i < text@.len() implies (#[trigger] text@[i]) as int
                == codes@[i] as int by {
                assert(text@[i] as u8 == codes@[i]);
                assert('\0' <= text@[i] <= '\u{7f}');
            }
        }
        Some(codes)
    } else {
        None
    }
}

/// The byte string that `text` stands for, if there is one.
pub fn from_hex(text: &str) -> (r: Option<Vec<u8>>)
    ensures
        r is Some <==> hex_bytes(text@) is Some,
        r matches Some(b) ==> Some(b@) == hex_bytes(text@),
{
    match ascii_codes(text) {
        Some(codes) => {
            assert(text@.subrange(0, text@.len() as int) =~= text@);
            read_hex(codes, 0, codes.len(), Ghost(text@))
        },
        None => {
            proof {
                if is_hex_text(text@) {
                    assert forall|i: int| 0 <= i < text@.len() implies '\0' <= (
                    #[trigger] text@[i]) <= '\u{7f}' by {
                        assert(digit_value(text@[i]) is Some);
                    }
                }
            }
            None
        },
    }
}

} // verus!
