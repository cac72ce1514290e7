//! Conversion between bytes and lowercase hexadecimal text.

use crate::error::CoreError;
use vstd::prelude::*;

verus! {

/// The lowercase hex digit for a value below 16.
pub open spec fn digit_char(n: int) -> char {
    if n == 0 { '0' } else if n == 1 { '1' } else if n == 2 { '2' } else if n == 3 { '3' }
    else if n == 4 { '4' } else if n == 5 { '5' } else if n == 6 { '6' } else if n == 7 { '7' }
    else if n == 8 { '8' } else if n == 9 { '9' } else if n == 10 { 'a' } else if n == 11 { 'b' }
    else if n == 12 { 'c' } else if n == 13 { 'd' } else if n == 14 { 'e' } else { 'f' }
}

/// The value of a hex digit of either case, or -1 for any other character.
pub open spec fn digit_value(c: char) -> int {
    let u = c as u32 as int;
    if 48 <= u <= 57 { u - 48 }
    else if 97 <= u <= 102 { u - 87 }
    else if 65 <= u <= 70 { u - 55 }
    else { -1 }
}

/// The hex text of a byte sequence: two lowercase digits per byte, high digit first.
pub open spec fn encode_spec(bytes: Seq<u8>) -> Seq<char> {
    Seq::new(2 * bytes.len(), |i: int| if i % 2 == 0 {
        digit_char(bytes[i / 2] as int / 16)
    } else {
        digit_char(bytes[i / 2] as int % 16)
    })
}

/// Whether a text has even length and holds hex digits only.
pub open spec fn is_hex_text(text: Seq<char>) -> bool {
    &&& text.len() % 2 == 0
    &&& forall|i: int| 0 <= i < text.len() ==> digit_value(#[trigger] text[i]) >= 0
}

/// The bytes that a hex text stands for.
pub open spec fn decode_spec(text: Seq<char>) -> Seq<u8> {
    Seq::new(text.len() / 2, |i: int| (16 * digit_value(text[2 * i]) + digit_value(text[2 * i + 1])) as u8)
}

/// The one-character text of the lowercase hex digit for a value below 16.
fn digit_text(n: u8) -> (text: &'static str)
    requires
        n < 16,
    ensures
        text@ == seq![digit_char(n as int)],
{
    proof {
        reveal_strlit("0"); reveal_strlit("1"); reveal_strlit("2"); reveal_strlit("3");
        reveal_strlit("4"); reveal_strlit("5"); reveal_strlit("6"); reveal_strlit("7");
        reveal_strlit("8"); reveal_strlit("9"); reveal_strlit("a"); reveal_strlit("b");
        reveal_strlit("c"); reveal_strlit("d"); reveal_strlit("e"); reveal_strlit("f");
    }
    let text = match n {
        0 => "0", 1 => "1", 2 => "2", 3 => "3", 4 => "4", 5 => "5", 6 => "6", 7 => "7",
        8 => "8", 9 => "9", 10 => "a", 11 => "b", 12 => "c", 13 => "d", 14 => "e", _ => "f",
    };
    assert(text@ =~= seq![digit_char(n as int)]);
    text
}

/// Encodes bytes as lowercase hex text, two digits per byte. Never fails.
pub fn bytes_to_hex(bytes: &[u8]) -> (text: String)
    ensures
        text@ == encode_spec(bytes@),
        text@.len() == 2 * bytes@.len(),
{
    let mut text = String::new();
    let mut i: usize = 0;
    while i < bytes.len()
        invariant
            i <= bytes.len(),
            text@ == encode_spec(bytes@.subrange(0, i as int)),
        decreases bytes.len() - i,
    {
        let b = bytes[i];
        let ghost before = text@;
        text.append(digit_text(b / 16));
        text.append(digit_text(b % 16));
        proof {
            let done = bytes@.subrange(0, i as int);
            let next = bytes@.subrange(0, i as int + 1);
            assert(next =~= done.push(b));
            assert(text@ =~= encode_spec(next));
        }
        i += 1;
    }
    proof {
        assert(bytes@.subrange(0, i as int) =~= bytes@);
    }
    text
}

/// Whether a character is white space: the code points with Unicode's
/// `White_Space` property.
pub open spec fn is_space(c: char) -> bool {
    let u = c as u32 as int;
    ||| 0x09 <= u <= 0x0d
    ||| u == 0x20
    ||| u == 0x85
    ||| u == 0xa0
    ||| u == 0x1680
    ||| 0x2000 <= u <= 0x200a
    ||| u == 0x2028
    ||| u == 0x2029
    ||| u == 0x202f
    ||| u == 0x205f
    ||| u == 0x3000
}

/// A text without its leading white space.
pub open spec fn trim_front(text: Seq<char>) -> Seq<char>
    decreases text.len(),
{
    if text.len() > 0 && is_space(text[0]) {
        trim_front(text.drop_first())
    } else {
        text
    }
}

/// A text without its trailing white space.
pub open spec fn trim_back(text: Seq<char>) -> Seq<char>
    decreases text.len(),
{
    if text.len() > 0 && is_space(text.last()) {
        trim_back(text.drop_last())
    } else {
        text
    }
}

/// A text without its surrounding white space.
pub open spec fn trimmed(text: Seq<char>) -> Seq<char> {
    trim_back(trim_front(text))
}

/// What decoding a text gives: the bytes of its trimmed form where that is hex
/// text, and `MalformedHex` otherwise.
pub open spec fn hex_to_bytes_spec(text: Seq<char>) -> Result<Seq<u8>, CoreError> {
    if is_hex_text(trimmed(text)) {
        Ok(decode_spec(trimmed(text)))
    } else {
        Err(CoreError::MalformedHex)
    }
}

/// Skipping `n` leading white-space characters and then trimming the front
/// is trimming the front.
proof fn lemma_trim_front_skip(text: Seq<char>, n: int)
    requires
        0 <= n <= text.len(),
        forall|k: int| 0 <= k < n ==> is_space(#[trigger] text[k]),
    ensures
        trim_front(text) == trim_front(text.subrange(n, text.len() as int)),
    decreases n,
{
    if n == 0 {
        assert(text.subrange(0, text.len() as int) =~= text);
    } else {
        let rest = text.drop_first();
        assert forall|k: int| 0 <= k < n - 1 implies is_space(#[trigger] rest[k]) by {
            assert(rest[k] == text[k + 1]);
        }
        lemma_trim_front_skip(rest, n - 1);
        assert(rest.subrange(n - 1, rest.len() as int) =~= text.subrange(n, text.len() as int));
    }
}

/// Dropping trailing white-space characters down to length `n` and then
/// trimming the back is trimming the back.
proof fn lemma_trim_back_skip(text: Seq<char>, n: int)
    requires
        0 <= n <= text.len(),
        forall|k: int| n <= k < text.len() ==> is_space(#[trigger] text[k]),
    ensures
        trim_back(text) == trim_back(text.subrange(0, n)),
    decreases text.len() - n,
{
    if n == text.len() {
        assert(text.subrange(0, n) =~= text);
    } else {
        let rest = text.drop_last();
        assert forall|k: int| n <= k < rest.len() implies is_space(#[trigger] rest[k]) by {
            assert(rest[k] == text[k]);
        }
        lemma_trim_back_skip(rest, n);
        assert(rest.subrange(0, n) =~= text.subrange(0, n));
    }
}

/// Whether a character is white space.
fn char_is_space(c: char) -> (space: bool)
    ensures
        space == is_space(c),
{
    let u: u32 = c as u32;
    (0x09 <= u && u <= 0x0d) || u == 0x20 || u == 0x85 || u == 0xa0 || u == 0x1680
        || (0x2000 <= u && u <= 0x200a) || u == 0x2028 || u == 0x2029 || u == 0x202f
        || u == 0x205f || u == 0x3000
}

/// The value of a hex digit, or `None` for any other character.
fn char_value(c: char) -> (value: Option<u8>)
    ensures
        value is Some <==> digit_value(c) >= 0,
        value is Some ==> value->0 as int == digit_value(c) && value->0 < 16,
{
    let u: u32 = c as u32;
    if 48 <= u && u <= 57 {
        Some((u - 48) as u8)
    } else if 97 <= u && u <= 102 {
        Some((u - 87) as u8)
    } else if 65 <= u && u <= 70 {
        Some((u - 55) as u8)
    } else {
        None
    }
}

/// The characters of a text, in order.
fn chars_of(text: &str) -> (chars: Vec<char>)
    ensures
        chars@ == text@,
{
    let mut chars: Vec<char> = Vec::new();
    for c in it: text.chars()
        invariant
            chars@ == it.seq().take(it.index() as int),
            it.seq() == text@,
    {
        chars.push(c);
    }
    chars
}

/// Decodes text as hex: surrounding white space is dropped, digits of either
/// case are accepted, and a text of odd length or with any other character is
/// refused as `MalformedHex`.
pub fn hex_to_bytes(hex_str: &str) -> (result: Result<Vec<u8>, CoreError>)
    ensures
        match result {
            Ok(bytes) => hex_to_bytes_spec(hex_str@) == Ok::<Seq<u8>, CoreError>(bytes@),
            Err(e) => hex_to_bytes_spec(hex_str@) == Err::<Seq<u8>, CoreError>(e),
        },
{
    let chars = chars_of(hex_str);
    let mut start: usize = 0;
    while start < chars.len() && char_is_space(chars[start])
        invariant
            start <= chars.len(),
            forall|k: int| 0 <= k < start ==> is_space(#[trigger] chars@[k]),
        decreases chars.len() - start,
    {
        start += 1;
    }
    let mut end: usize = chars.len();
    while end > start && char_is_space(chars[end - 1])
        invariant
            start <= end <= chars.len(),
            forall|k: int| end <= k < chars.len() ==> is_space(#[trigger] chars@[k]),
        decreases end,
    {
        end -= 1;
    }
    let ghost front = chars@.subrange(start as int, chars.len() as int);
    let ghost body = chars@.subrange(start as int, end as int);
    proof {
        lemma_trim_front_skip(chars@, start as int);
        assert(trim_front(chars@) == front) by {
            if front.len() > 0 {
                assert(front[0] == chars@[start as int]);
            }
        }
        assert forall|k: int| end - start <= k < front.len() implies is_space(#[trigger] front[k]) by {
            assert(front[k] == chars@[k + start]);
        }
        lemma_trim_back_skip(front, end - start);
        assert(front.subrange(0, end - start) =~= body);
        assert(trim_back(body) == body) by {
            if body.len() > 0 {
                assert(body.last() == chars@[end - 1]);
            }
        }
        assert(trimmed(hex_str@) == body);
    }
    if (end - start) % 2 != 0 {
        return Err(CoreError::MalformedHex);
    }
    let mut bytes: Vec<u8> = Vec::new();
    let mut i: usize = start;
    while i < end
        invariant
            start <= i <= end <= chars.len(),
            (i - start) % 2 == 0,
            (end - start) % 2 == 0,
            body == chars@.subrange(start as int, end as int),
            trimmed(hex_str@) == body,
            bytes@.len() == (i - start) / 2,
            forall|k: int| 0 <= k < i - start ==> digit_value(#[trigger] body[k]) >= 0,
            forall|k: int| 0 <= k < bytes@.len() ==> bytes@[k] == decode_spec(body)[k],
        decreases end - i,
    {
        let high = char_value(chars[i]);
        let low = char_value(chars[i + 1]);
        proof {
            assert(body[i - start] == chars@[i as int]);
            assert(body[i - start + 1] == chars@[i + 1]);
        }
        match (high, low) {
            (Some(h), Some(l)) => {
                bytes.push(h * 16 + l);
            },
            _ => {
                assert(digit_value(body[i - start]) < 0 || digit_value(body[i - start + 1]) < 0);
                return Err(CoreError::MalformedHex);
            },
        }
        i += 2;
    }
    proof {
        assert(bytes@ =~= decode_spec(body));
    }
    Ok(bytes)
}

/// The lowercase form of an ASCII letter; any other character is kept.
pub open spec fn ascii_lower(c: char) -> char {
    let u = c as u32;
    if 65 <= u <= 90 {
        ((u + 32) as u8) as char
    } else {
        c
    }
}

/// A text with each ASCII letter in lowercase.
pub open spec fn lowercase(text: Seq<char>) -> Seq<char> {
    Seq::new(text.len(), |i: int| ascii_lower(text[i]))
}

/// A digit's character has the digit as its value, and is no white space.
proof fn lemma_digit_char(n: int)
    requires
        0 <= n < 16,
    ensures
        digit_value(digit_char(n)) == n,
        !is_space(digit_char(n)),
{
}

/// The lowercase form of a hex digit is the digit character of its value.
proof fn lemma_digit_lower(c: char)
    requires
        digit_value(c) >= 0,
    ensures
        digit_char(digit_value(c)) == ascii_lower(c),
{
}

/// Hex round trip: decoding the encoding of any byte sequence gives the
/// sequence back. The encoding is hex text that trimming leaves as it is.
pub proof fn lemma_decode_encode(bytes: Seq<u8>)
    ensures
        is_hex_text(encode_spec(bytes)),
        trimmed(encode_spec(bytes)) == encode_spec(bytes),
        decode_spec(encode_spec(bytes)) == bytes,
        hex_to_bytes_spec(encode_spec(bytes)) == Ok::<Seq<u8>, CoreError>(bytes),
{
    let text = encode_spec(bytes);
    assert forall|i: int| 0 <= i < text.len() implies digit_value(#[trigger] text[i]) >= 0
        && !is_space(text[i]) by {
        lemma_digit_char(bytes[i / 2] as int / 16);
        lemma_digit_char(bytes[i / 2] as int % 16);
    }
    if text.len() > 0 {
        assert(!is_space(text[0]));
        assert(!is_space(text.last()));
    }
    assert(trim_front(text) == text);
    assert(trim_back(text) == text);
    assert forall|i: int| 0 <= i < bytes.len() implies decode_spec(text)[i] == bytes[i] by {
        let b = bytes[i] as int;
        assert(text[2 * i] == digit_char(b / 16));
        assert(text[2 * i + 1] == digit_char(b % 16));
        lemma_digit_char(b / 16);
        lemma_digit_char(b % 16);
    }
    assert(decode_spec(text) =~= bytes);
}

/// Hex round trip, from text: encoding the bytes of any hex text gives the
/// text in lowercase.
pub proof fn lemma_encode_decode(text: Seq<char>)
    requires
        is_hex_text(text),
    ensures
        encode_spec(decode_spec(text)) == lowercase(text),
{
    let bytes = decode_spec(text);
    let back = encode_spec(bytes);
    assert forall|i: int| 0 <= i < text.len() implies back[i] == ascii_lower(text[i]) by {
        let j = i / 2;
        let h = digit_value(text[2 * j]);
        let l = digit_value(text[2 * j + 1]);
        assert(0 <= h < 16 && 0 <= l < 16);
        assert(bytes[j] as int == 16 * h + l);
        lemma_digit_lower(text[2 * j]);
        lemma_digit_lower(text[2 * j + 1]);
    }
    assert(back =~= lowercase(text));
}

} // verus!
