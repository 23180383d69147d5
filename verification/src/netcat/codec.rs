//! Payload encodings: the text that a caller gives is turned into bytes to
//! send, and bytes that arrived are turned into text to show. Text that
//! stands for no bytes in its format is refused, never read as other bytes.

use vstd::prelude::*;
use vstd::utf8::{decode_utf8, encode_utf8, valid_utf8};
use base64::Engine;
use crate::error::EngineError;
use crate::netcat::types::DataFormat;
use crate::text::{digit_char, digit_to_char, to_chars};

verus! {

/// Whether `c` is one of `0`-`9`, `a`-`f`, `A`-`F`.
pub open spec fn is_hex_digit(c: char) -> bool {
    ('0' <= c && c <= '9') || ('a' <= c && c <= 'f') || ('A' <= c && c <= 'F')
}

/// The number that a hexadecimal digit stands for.
pub open spec fn hex_value(c: char) -> int {
    if '0' <= c && c <= '9' {
        c as int - '0' as int
    } else if 'a' <= c && c <= 'f' {
        c as int - 'a' as int + 10
    } else {
        c as int - 'A' as int + 10
    }
}

/// `s` without the two characters `0` and `x`, wherever they stand side by
/// side, found from left to right. `x` is the letter of the marker, in
/// either case.
pub open spec fn strip_marker(s: Seq<char>, x: char) -> Seq<char>
    decreases s.len(),
{
    if s.len() < 2 {
        s
    } else if s[0] == '0' && s[1] == x {
        strip_marker(s.skip(2), x)
    } else {
        seq![s[0]] + strip_marker(s.skip(1), x)
    }
}

/// Whether `c` is white space as Unicode defines it: the characters with
/// the property White_Space.
pub open spec fn is_white_space(c: char) -> bool {
    let u = c as u32;
    ||| 0x09 <= u <= 0x0D
    ||| u == 0x20
    ||| u == 0x85
    ||| u == 0xA0
    ||| u == 0x1680
    ||| 0x2000 <= u <= 0x200A
    ||| u == 0x2028
    ||| u == 0x2029
    ||| u == 0x202F
    ||| u == 0x205F
    ||| u == 0x3000
}

/// `s` without its white space; every other character stays, in its order.
pub open spec fn without_white_space(s: Seq<char>) -> Seq<char>
    decreases s.len(),
{
    if s.len() == 0 {
        s
    } else if is_white_space(s[0]) {
        without_white_space(s.skip(1))
    } else {
        seq![s[0]] + without_white_space(s.skip(1))
    }
}

/// Whether every character is a hexadecimal digit.
pub open spec fn all_hex_digits(d: Seq<char>) -> bool {
    forall|i: int| 0 <= i < d.len() ==> is_hex_digit(#[trigger] d[i])
}

/// `s` without the white space at its beginning.
pub open spec fn trim_start(s: Seq<char>) -> Seq<char>
    decreases s.len(),
{
    if s.len() > 0 && is_white_space(s[0]) {
        trim_start(s.skip(1))
    } else {
        s
    }
}

/// `s` without the white space at its end.
pub open spec fn trim_end(s: Seq<char>) -> Seq<char>
    decreases s.len(),
{
    if s.len() > 0 && is_white_space(s.last()) {
        trim_end(s.drop_last())
    } else {
        s
    }
}

/// `s` without the white space at its beginning and at its end.
pub open spec fn trimmed(s: Seq<char>) -> Seq<char> {
    trim_end(trim_start(s))
}

/// The bytes that pairs of hexadecimal digits stand for, the first digit of
/// a pair being the upper half of its byte.
pub open spec fn pair_bytes(d: Seq<char>) -> Seq<u8>
    decreases d.len(),
{
    if d.len() < 2 {
        Seq::<u8>::empty()
    } else {
        seq![(hex_value(d[0]) * 16 + hex_value(d[1])) as u8] + pair_bytes(d.skip(2))
    }
}

/// What counts in hexadecimal text: the `0x` markers are taken out first,
/// then the `0X` markers, then the white space. What is left must be digits.
pub open spec fn hex_body(s: Seq<char>) -> Seq<char> {
    without_white_space(strip_marker(strip_marker(s, 'x'), 'X'))
}

/// The bytes of hexadecimal text. Text that holds anything but digits,
/// markers and white space stands for no bytes, nor does text whose digits
/// are odd in number.
pub open spec fn decode_hex(s: Seq<char>) -> Result<Seq<u8>, EngineError> {
    if !all_hex_digits(hex_body(s)) {
        Err(EngineError::InvalidHexDigit)
    } else if hex_body(s).len() % 2 != 0 {
        Err(EngineError::OddHexLength)
    } else {
        Ok(pair_bytes(hex_body(s)))
    }
}

/// What `base64::engine::general_purpose::STANDARD.decode` returns for a
/// text: the bytes, or `None` where it reports an error.
pub uninterp spec fn base64_standard_decode(text: Seq<char>) -> Option<Seq<u8>>;

/// The bytes that a payload text stands for in a format, or the reason why
/// it stands for none.
pub open spec fn decode_payload(data: Seq<char>, format: DataFormat) -> Result<Seq<u8>, EngineError> {
    match format {
        DataFormat::Text => Ok(encode_utf8(data)),
        DataFormat::Hex => decode_hex(data),
        DataFormat::Base64 => match base64_standard_decode(trimmed(data)) {
            Some(bytes) => Ok(bytes),
            None => Err(EngineError::InvalidBase64),
        },
    }
}

/// Calls `base64::engine::general_purpose::STANDARD.decode` on the text.
/// The result is named, not described: the bytes that the engine decodes,
/// `None` for every error that it reports.
#[verifier::external_body]
fn base64_decode(text: &str) -> (r: Option<Vec<u8>>)
    ensures
        r is Some <==> base64_standard_decode(text@) is Some,
        r is Some ==> r->0@ == base64_standard_decode(text@)->0,
{
    base64::engine::general_purpose::STANDARD.decode(text).ok()
}

/// Calls `String::from_utf8` on a copy of the bytes: the text that the bytes
/// encode in UTF-8, `None` where they encode none.
#[verifier::external_body]
fn utf8_text(data: &[u8]) -> (r: Option<String>)
    ensures
        r is Some <==> valid_utf8(data@),
        r is Some ==> r->0@ == decode_utf8(data@),
{
    String::from_utf8(data.to_vec()).ok()
}

/// Whether `c` is a hexadecimal digit.
fn char_is_hex_digit(c: char) -> (r: bool)
    ensures
        r == is_hex_digit(c),
{
    (c >= '0' && c <= '9') || (c >= 'a' && c <= 'f') || (c >= 'A' && c <= 'F')
}

/// The number that a hexadecimal digit stands for.
fn hex_digit_value(c: char) -> (v: u8)
    requires
        is_hex_digit(c),
    ensures
        v == hex_value(c),
        v < 16,
{
    if c >= '0' && c <= '9' {
        ((c as u32) - ('0' as u32)) as u8
    } else if c >= 'a' && c <= 'f' {
        ((c as u32) - ('a' as u32) + 10) as u8
    } else {
        ((c as u32) - ('A' as u32) + 10) as u8
    }
}

/// Takes the markers `0x`, with the given letter, out of the characters.
fn strip_marker_chars(s: &Vec<char>, x: char) -> (out: Vec<char>)
    ensures
        out@ == strip_marker(s@, x),
{
    let mut out: Vec<char> = Vec::new();
    let mut i: usize = 0;
    assert(s@.skip(0) =~= s@);
    assert(out@ + strip_marker(s@, x) =~= strip_marker(s@, x));
    while i < s.len()
        invariant
            i <= s.len(),
            out@ + strip_marker(s@.skip(i as int), x) == strip_marker(s@, x),
        decreases s.len() - i,
    {
        let ghost rest = s@.skip(i as int);
        let ghost before = out@;
        if i + 1 < s.len() && s[i] == '0' && s[i + 1] == x {
            assert(rest.skip(2) =~= s@.skip(i + 2));
            i += 2;
        } else {
            out.push(s[i]);
            proof {
                assert(rest.skip(1) =~= s@.skip(i + 1));
                if rest.len() < 2 {
                    assert(rest =~= seq![s@[i as int]]);
                    assert(strip_marker(s@.skip(i + 1), x) =~= Seq::<char>::empty());
                }
                assert(strip_marker(rest, x) =~= seq![s@[i as int]] + strip_marker(s@.skip(i + 1), x));
                assert(out@ + strip_marker(s@.skip(i + 1), x) =~= before + strip_marker(rest, x));
            }
            i += 1;
        }
    }
    assert(s@.skip(s@.len() as int) =~= Seq::<char>::empty());
    assert(out@ + Seq::<char>::empty() =~= out@);
    out
}

/// Whether `c` is white space: see [`is_white_space`].
pub fn char_is_white_space(c: char) -> (r: bool)
    ensures
        r == is_white_space(c),
{
    let u = c as u32;
    (0x09 <= u && u <= 0x0D) || u == 0x20 || u == 0x85 || u == 0xA0 || u == 0x1680 || (0x2000 <= u && u
        <= 0x200A) || u == 0x2028 || u == 0x2029 || u == 0x202F || u == 0x205F || u == 0x3000
}

/// Leaves the white space out of the characters.
fn drop_white_space(s: &Vec<char>) -> (out: Vec<char>)
    ensures
        out@ == without_white_space(s@),
{
    let mut out: Vec<char> = Vec::new();
    let mut i: usize = 0;
    assert(s@.skip(0) =~= s@);
    assert(out@ + without_white_space(s@) =~= without_white_space(s@));
    while i < s.len()
        invariant
            i <= s.len(),
            out@ + without_white_space(s@.skip(i as int)) == without_white_space(s@),
        decreases s.len() - i,
    {
        let ghost rest = s@.skip(i as int);
        let ghost before = out@;
        assert(rest.skip(1) =~= s@.skip(i + 1));
        if !char_is_white_space(s[i]) {
            out.push(s[i]);
            assert(out@ + without_white_space(s@.skip(i + 1)) =~= before + without_white_space(rest));
        }
        i += 1;
    }
    assert(s@.skip(s@.len() as int) =~= Seq::<char>::empty());
    assert(out@ + Seq::<char>::empty() =~= out@);
    out
}

/// Whether every character is a hexadecimal digit.
fn only_hex_digits(d: &Vec<char>) -> (b: bool)
    ensures
        b == all_hex_digits(d@),
{
    let mut i: usize = 0;
    while i < d.len()
        invariant
            i <= d.len(),
            forall|j: int| 0 <= j < i ==> is_hex_digit(#[trigger] d@[j]),
        decreases d.len() - i,
    {
        if !char_is_hex_digit(d[i]) {
            return false;
        }
        i += 1;
    }
    true
}

/// The text without the white space at its beginning and at its end: see
/// [`trimmed`].
pub fn trim(text: &str) -> (r: String)
    ensures
        r@ == trimmed(text@),
{
    let chars = to_chars(text);
    let mut start: usize = 0;
    assert(chars@.skip(0) =~= chars@);
    while start < chars.len() && char_is_white_space(chars[start])
        invariant
            start <= chars.len(),
            trim_start(chars@.skip(start as int)) == trim_start(chars@),
        decreases chars.len() - start,
    {
        assert(chars@.skip(start as int).skip(1) =~= chars@.skip(start + 1));
        start += 1;
    }
    let ghost left = chars@.skip(start as int);
    assert(trim_start(chars@) == left);
    let mut end: usize = chars.len();
    assert(chars@.subrange(start as int, end as int) =~= left);
    while end > start && char_is_white_space(chars[end - 1])
        invariant
            start <= end <= chars.len(),
            trim_end(chars@.subrange(start as int, end as int)) == trim_end(left),
        decreases end - start,
    {
        assert(chars@.subrange(start as int, end as int).drop_last() =~= chars@.subrange(
            start as int,
            end - 1,
        ));
        end -= 1;
    }
    let ghost kept = chars@.subrange(start as int, end as int);
    assert(trim_end(left) == kept);
    let mut r = String::new();
    let mut i: usize = start;
    while i < end
        invariant
            start <= i <= end <= chars.len(),
            r@ == chars@.subrange(start as int, i as int),
        decreases end - i,
    {
        r.push(chars[i]);
        assert(chars@.subrange(start as int, i + 1) =~= chars@.subrange(start as int, i as int).push(
            chars@[i as int],
        ));
        i += 1;
    }
    r
}

/// The bytes that pairs of digits stand for.
fn pairs_to_bytes(d: &Vec<char>) -> (out: Vec<u8>)
    requires
        d@.len() % 2 == 0,
        forall|i: int| 0 <= i < d@.len() ==> is_hex_digit(#[trigger] d@[i]),
    ensures
        out@ == pair_bytes(d@),
{
    let mut out: Vec<u8> = Vec::new();
    let mut i: usize = 0;
    assert(d@.skip(0) =~= d@);
    assert(out@ + pair_bytes(d@) =~= pair_bytes(d@));
    while i < d.len()
        invariant
            i <= d.len(),
            i % 2 == 0,
            d@.len() % 2 == 0,
            forall|i: int| 0 <= i < d@.len() ==> is_hex_digit(#[trigger] d@[i]),
            out@ + pair_bytes(d@.skip(i as int)) == pair_bytes(d@),
        decreases d.len() - i,
    {
        let ghost rest = d@.skip(i as int);
        let ghost before = out@;
        let hi = hex_digit_value(d[i]);
        let lo = hex_digit_value(d[i + 1]);
        out.push(hi * 16 + lo);
        proof {
            assert(rest.skip(2) =~= d@.skip(i + 2));
            assert(out@ + pair_bytes(d@.skip(i + 2)) =~= before + pair_bytes(rest));
        }
        i += 2;
    }
    assert(d@.skip(d@.len() as int) =~= Seq::<char>::empty());
    assert(out@ + Seq::<u8>::empty() =~= out@);
    out
}

/// The bytes that `data` stands for in `format`: the UTF-8 bytes of a text;
/// the bytes of hexadecimal digits, with `0x` markers and white space left
/// out, refused where anything else is left or the digits are odd in
/// number; the bytes of base64 in the standard alphabet, white space at both
/// ends left out.
pub fn parse_input_data(data: &str, format: DataFormat) -> (r: Result<Vec<u8>, EngineError>)
    ensures
        match decode_payload(data@, format) {
            Ok(bytes) => r is Ok && r->Ok_0@ == bytes,
            Err(e) => r == Err::<Vec<u8>, EngineError>(e),
        },
{
    match format {
        DataFormat::Text => Ok(vstd::slice::slice_to_vec(data.as_bytes())),
        DataFormat::Hex => {
            let chars = to_chars(data);
            let lower = strip_marker_chars(&chars, 'x');
            let upper = strip_marker_chars(&lower, 'X');
            let digits = drop_white_space(&upper);
            if !only_hex_digits(&digits) {
                return Err(EngineError::InvalidHexDigit);
            }
            if digits.len() % 2 != 0 {
                return Err(EngineError::OddHexLength);
            }
            Ok(pairs_to_bytes(&digits))
        },
        DataFormat::Base64 => {
            match base64_decode(trim(data).as_str()) {
                Some(bytes) => Ok(bytes),
                None => Err(EngineError::InvalidBase64),
            }
        },
    }
}

/// Two upper-case hexadecimal digits for a byte.
pub open spec fn byte_hex(b: u8) -> Seq<char> {
    seq![digit_char(b as int / 16, true), digit_char(b as int % 16, true)]
}

/// The bytes in hexadecimal, two upper-case digits each, with one space
/// between neighbours.
pub open spec fn hex_display(bytes: Seq<u8>) -> Seq<char>
    decreases bytes.len(),
{
    if bytes.len() == 0 {
        Seq::<char>::empty()
    } else if bytes.len() == 1 {
        byte_hex(bytes[0])
    } else {
        hex_display(bytes.drop_last()) + seq![' '] + byte_hex(bytes.last())
    }
}

/// How received bytes are shown: as the text that they encode in UTF-8, or,
/// where they encode none, in hexadecimal.
pub open spec fn display_text(bytes: Seq<u8>) -> Seq<char> {
    if valid_utf8(bytes) {
        decode_utf8(bytes)
    } else {
        hex_display(bytes)
    }
}

/// The text that shows received bytes: see [`display_text`].
pub fn bytes_to_display_string(data: &[u8]) -> (text: String)
    ensures
        text@ == display_text(data@),
{
    match utf8_text(data) {
        Some(text) => text,
        None => {
            let mut text = String::new();
            let mut i: usize = 0;
            assert(data@.take(0) =~= Seq::<u8>::empty());
            while i < data.len()
                invariant
                    i <= data.len(),
                    text@ == hex_display(data@.take(i as int)),
                decreases data.len() - i,
            {
                let ghost before = data@.take(i as int);
                if i > 0 {
                    text.push(' ');
                }
                let b = data[i];
                text.push(digit_to_char(b / 16, true));
                text.push(digit_to_char(b % 16, true));
                proof {
                    let now = data@.take(i + 1);
                    assert(now.drop_last() =~= before);
                    assert(now.last() == b);
                    if i == 0 {
                        assert(text@ =~= byte_hex(b));
                    } else {
                        assert(text@ =~= hex_display(before) + seq![' '] + byte_hex(b));
                    }
                }
                i += 1;
            }
            assert(data@.take(data@.len() as int) =~= data@);
            text
        },
    }
}

/// An upper-case digit is a hexadecimal digit with the value it was made
/// from, and is neither letter of a marker.
proof fn lemma_upper_digit(d: int)
    requires
        0 <= d < 16,
    ensures
        is_hex_digit(digit_char(d, true)),
        hex_value(digit_char(d, true)) == d,
        digit_char(d, true) != 'x',
        digit_char(d, true) != 'X',
        digit_char(d, true) != ' ',
        !is_white_space(digit_char(d, true)),
{
}

/// Text without the letter of a marker holds no marker.
proof fn lemma_strip_without_marker(s: Seq<char>, x: char)
    requires
        forall|i: int| 0 <= i < s.len() ==> s[i] != x,
    ensures
        strip_marker(s, x) == s,
    decreases s.len(),
{
    if s.len() >= 2 {
        lemma_strip_without_marker(s.skip(1), x);
        assert(seq![s[0]] + s.skip(1) =~= s);
    }
}

/// A text in two parts, without its white space, is the parts without
/// theirs.
proof fn lemma_without_white_space_concat(a: Seq<char>, b: Seq<char>)
    ensures
        without_white_space(a + b) == without_white_space(a) + without_white_space(b),
    decreases a.len(),
{
    if a.len() == 0 {
        assert(a + b =~= b);
        assert(without_white_space(a) + without_white_space(b) =~= without_white_space(b));
    } else {
        lemma_without_white_space_concat(a.skip(1), b);
        assert((a + b).skip(1) =~= a.skip(1) + b);
        assert((a + b)[0] == a[0]);
        if !is_white_space(a[0]) {
            assert(without_white_space(a + b) =~= without_white_space(a) + without_white_space(b));
        }
    }
}

/// The bytes of digits in two parts are the bytes of the parts, where the
/// first part holds whole pairs.
proof fn lemma_pair_bytes_concat(a: Seq<char>, b: Seq<char>)
    requires
        a.len() % 2 == 0,
    ensures
        pair_bytes(a + b) == pair_bytes(a) + pair_bytes(b),
    decreases a.len(),
{
    if a.len() == 0 {
        assert(a + b =~= b);
        assert(pair_bytes(a) + pair_bytes(b) =~= pair_bytes(b));
    } else {
        lemma_pair_bytes_concat(a.skip(2), b);
        assert((a + b).skip(2) =~= a.skip(2) + b);
        assert((a + b)[0] == a[0]);
        assert((a + b)[1] == a[1]);
        assert(pair_bytes(a + b) =~= pair_bytes(a) + pair_bytes(b));
    }
}

/// The bytes in hexadecimal without the spaces.
spec fn hex_compact(bytes: Seq<u8>) -> Seq<char>
    decreases bytes.len(),
{
    if bytes.len() == 0 {
        Seq::<char>::empty()
    } else {
        hex_compact(bytes.drop_last()) + byte_hex(bytes.last())
    }
}

/// The two digits of a byte hold no white space and stand for the byte; a
/// space is white space.
proof fn lemma_byte_hex(b: u8)
    ensures
        without_white_space(byte_hex(b)) == byte_hex(b),
        pair_bytes(byte_hex(b)) == seq![b],
        without_white_space(seq![' ']) == Seq::<char>::empty(),
{
    let h = byte_hex(b);
    lemma_upper_digit(b as int / 16);
    lemma_upper_digit(b as int % 16);
    assert(h.skip(1) =~= seq![h[1]]);
    assert(h.skip(1).skip(1) =~= Seq::<char>::empty());
    assert(without_white_space(h.skip(1).skip(1)) =~= Seq::<char>::empty());
    assert(without_white_space(h.skip(1)) =~= seq![h[1]]);
    assert(without_white_space(h) =~= h);
    assert(h.skip(2) =~= Seq::<char>::empty());
    assert(pair_bytes(h.skip(2)) =~= Seq::<u8>::empty());
    assert(pair_bytes(h) =~= seq![b]);
    let sp = seq![' '];
    assert(sp.skip(1) =~= Seq::<char>::empty());
    assert(without_white_space(sp) =~= Seq::<char>::empty());
}

/// The shown form of bytes holds nothing but upper-case digits and spaces.
proof fn lemma_display_has_no_marker(bytes: Seq<u8>)
    ensures
        forall|i: int| 0 <= i < hex_display(bytes).len() ==> hex_display(bytes)[i] != 'x'
            && hex_display(bytes)[i] != 'X',
    decreases bytes.len(),
{
    let shown = hex_display(bytes);
    if bytes.len() == 1 {
        lemma_upper_digit(bytes[0] as int / 16);
        lemma_upper_digit(bytes[0] as int % 16);
        assert forall|i: int| 0 <= i < shown.len() implies shown[i] != 'x' && shown[i] != 'X' by {
            assert(shown == byte_hex(bytes[0]));
            assert(i == 0 || i == 1);
        }
    } else if bytes.len() > 1 {
        let head = hex_display(bytes.drop_last());
        lemma_display_has_no_marker(bytes.drop_last());
        lemma_upper_digit(bytes.last() as int / 16);
        lemma_upper_digit(bytes.last() as int % 16);
        assert forall|i: int| 0 <= i < shown.len() implies shown[i] != 'x' && shown[i] != 'X' by {
            assert(shown == head + seq![' '] + byte_hex(bytes.last()));
            if i < head.len() {
                assert(shown[i] == head[i]);
            } else if i == head.len() {
                assert(shown[i] == ' ');
            } else {
                assert(shown[i] == byte_hex(bytes.last())[i - head.len() - 1]);
            }
        }
    }
}

/// The shown form without its white space is the digits of the bytes, side
/// by side.
proof fn lemma_display_digits(bytes: Seq<u8>)
    ensures
        without_white_space(hex_display(bytes)) == hex_compact(bytes),
    decreases bytes.len(),
{
    if bytes.len() == 0 {
    } else if bytes.len() == 1 {
        lemma_byte_hex(bytes[0]);
        assert(bytes.drop_last() =~= Seq::<u8>::empty());
        assert(hex_compact(bytes.drop_last()) =~= Seq::<char>::empty());
        assert(hex_compact(bytes) =~= byte_hex(bytes[0]));
    } else {
        let head = bytes.drop_last();
        lemma_display_digits(head);
        lemma_byte_hex(bytes.last());
        lemma_without_white_space_concat(hex_display(head) + seq![' '], byte_hex(bytes.last()));
        lemma_without_white_space_concat(hex_display(head), seq![' ']);
        assert(hex_compact(head) + Seq::<char>::empty() =~= hex_compact(head));
    }
}

/// Digits side by side are digits, and stand for the bytes that they were
/// made from.
proof fn lemma_compact_bytes(bytes: Seq<u8>)
    ensures
        hex_compact(bytes).len() == 2 * bytes.len(),
        pair_bytes(hex_compact(bytes)) == bytes,
    decreases bytes.len(),
{
    if bytes.len() == 0 {
        assert(pair_bytes(hex_compact(bytes)) =~= bytes);
    } else {
        let head = bytes.drop_last();
        lemma_compact_bytes(head);
        lemma_byte_hex(bytes.last());
        lemma_pair_bytes_concat(hex_compact(head), byte_hex(bytes.last()));
        assert(head + seq![bytes.last()] =~= bytes);
    }
}

/// Digits side by side are digits.
proof fn lemma_compact_digits(bytes: Seq<u8>)
    ensures
        all_hex_digits(hex_compact(bytes)),
    decreases bytes.len(),
{
    if bytes.len() > 0 {
        let head = hex_compact(bytes.drop_last());
        let tail = byte_hex(bytes.last());
        lemma_compact_digits(bytes.drop_last());
        lemma_upper_digit(bytes.last() as int / 16);
        lemma_upper_digit(bytes.last() as int % 16);
        assert(is_hex_digit(tail[0]) && is_hex_digit(tail[1]));
        assert forall|i: int| 0 <= i < (head + tail).len() implies is_hex_digit(#[trigger] (head + tail)[i]) by {
            if i < head.len() {
                assert((head + tail)[i] == head[i]);
            } else {
                assert((head + tail)[i] == tail[i - head.len()]);
            }
        }
    }
}

/// Bytes that are shown in hexadecimal and read back as hexadecimal text are
/// the same bytes.
pub proof fn lemma_hex_display_round_trip(bytes: Seq<u8>)
    ensures
        decode_hex(hex_display(bytes)) == Ok::<Seq<u8>, EngineError>(bytes),
        decode_payload(hex_display(bytes), DataFormat::Hex) == Ok::<Seq<u8>, EngineError>(bytes),
{
    let shown = hex_display(bytes);
    lemma_display_has_no_marker(bytes);
    lemma_strip_without_marker(shown, 'x');
    lemma_strip_without_marker(shown, 'X');
    lemma_display_digits(bytes);
    lemma_compact_bytes(bytes);
    lemma_compact_digits(bytes);
}

/// Bytes that are no valid UTF-8 are shown in a form that, read back as
/// hexadecimal text, gives exactly the bytes that arrived.
pub proof fn lemma_binary_payload_survives_display(bytes: Seq<u8>)
    requires
        !valid_utf8(bytes),
    ensures
        decode_payload(display_text(bytes), DataFormat::Hex) == Ok::<Seq<u8>, EngineError>(bytes),
{
    lemma_hex_display_round_trip(bytes);
}

/// Hexadecimal text that, without its markers and white space, has an odd
/// number of characters stands for no bytes: it is refused as an encoding
/// error, whether the characters are digits or not.
pub proof fn lemma_odd_hex_is_refused(data: Seq<char>)
    requires
        hex_body(data).len() % 2 == 1,
    ensures
        decode_payload(data, DataFormat::Hex) is Err,
        decode_payload(data, DataFormat::Hex)->Err_0.spec_kind() == crate::error::ErrorKind::Encoding,
        all_hex_digits(hex_body(data)) ==> decode_payload(data, DataFormat::Hex) == Err::<
            Seq<u8>,
            EngineError,
        >(EngineError::OddHexLength),
{
}

/// Hexadecimal text that holds a character which is no digit, no white space
/// and no part of a marker stands for no bytes: it is refused as an encoding
/// error and never read as the bytes of its digits alone.
pub proof fn lemma_stray_hex_is_refused(data: Seq<char>)
    requires
        !all_hex_digits(hex_body(data)),
    ensures
        decode_payload(data, DataFormat::Hex) == Err::<Seq<u8>, EngineError>(EngineError::InvalidHexDigit),
        EngineError::InvalidHexDigit.spec_kind() == crate::error::ErrorKind::Encoding,
{
}

} // verus!
