//! Encodings and digests: SHA-256, base64url, hex, and the textual forms of UUIDs and integers.

use vstd::prelude::*;
use vstd::utf8::{encode_utf8, is_ascii_chars, is_ascii_chars_encode_utf8};
use base64::Engine;
use sha2::Digest;

verus! {

/// SHA-256 of `data`.
pub uninterp spec fn sha256(data: Seq<u8>) -> Seq<u8>;

/// The character of the base64url alphabet (RFC 4648 §5) for a six-bit value: `A`–`Z`, `a`–`z`,
/// `0`–`9`, `-`, `_`.
pub open spec fn base64url_char(n: int) -> char {
    if n < 26 {
        (65 + n) as char
    } else if n < 52 {
        (71 + n) as char
    } else if n < 62 {
        (n - 4) as char
    } else if n == 62 {
        '-'
    } else {
        '_'
    }
}

/// The unpadded base64url encoding of `data` (RFC 4648 §5, no `=`): each three bytes become four
/// characters of six bits each, most significant first; a last one or two bytes become two or
/// three characters, the bits that run past them zero.
pub open spec fn base64url(data: Seq<u8>) -> Seq<char>
    decreases data.len(),
{
    let a = if data.len() > 0 { data[0] as int } else { 0 };
    let b = if data.len() > 1 { data[1] as int } else { 0 };
    let c = if data.len() > 2 { data[2] as int } else { 0 };
    if data.len() == 0 {
        Seq::empty()
    } else if data.len() == 1 {
        seq![base64url_char(a / 4), base64url_char((a % 4) * 16)]
    } else if data.len() == 2 {
        seq![base64url_char(a / 4), base64url_char((a % 4) * 16 + b / 16), base64url_char((b % 16) * 4)]
    } else {
        seq![
            base64url_char(a / 4),
            base64url_char((a % 4) * 16 + b / 16),
            base64url_char((b % 16) * 4 + c / 64),
            base64url_char(c % 64),
        ] + base64url(data.skip(3))
    }
}

/// The value a string denotes as a UUID in any of the forms `uuid` accepts, if any.
pub uninterp spec fn uuid_value(text: Seq<char>) -> Option<u128>;

/// Whether `c` is an ASCII decimal digit.
pub open spec fn is_decimal_digit(c: char) -> bool {
    '0' <= c <= '9'
}

/// The number a run of ASCII decimal digits spells, most significant first.
pub open spec fn digits_value(digits: Seq<char>) -> int
    decreases digits.len(),
{
    if digits.len() == 0 {
        0
    } else {
        10 * digits_value(digits.drop_last()) + (digits.last() as int - 48)
    }
}

/// What `str::parse` makes of decimal text for an integer type, before its range is checked: an
/// optional `+`, or `-` for a signed type, then one or more ASCII digits and nothing else.
pub open spec fn decimal_number(text: Seq<char>, signed: bool) -> Option<int> {
    let negative = signed && text.len() > 0 && text[0] == '-';
    let digits = if text.len() > 0 && (text[0] == '+' || negative) { text.skip(1) } else { text };
    if digits.len() > 0 && forall|i: int| 0 <= i < digits.len() ==> is_decimal_digit(#[trigger] digits[i]) {
        Some(if negative { -digits_value(digits) } else { digits_value(digits) })
    } else {
        None
    }
}

/// The value a string denotes as a decimal `i64`, as `str::parse::<i64>` reads it, if any.
pub open spec fn i64_value(text: Seq<char>) -> Option<i64> {
    match decimal_number(text, true) {
        Some(v) => if i64::MIN <= v <= i64::MAX { Some(v as i64) } else { None },
        None => None,
    }
}

/// The value a string denotes as a decimal `usize`, as `str::parse::<usize>` reads it, if any.
pub open spec fn usize_value(text: Seq<char>) -> Option<usize> {
    match decimal_number(text, false) {
        Some(v) => if v <= usize::MAX { Some(v as usize) } else { None },
        None => None,
    }
}

/// The value a string denotes as a decimal `u32`, as `str::parse::<u32>` reads it, if any.
pub open spec fn u32_value(text: Seq<char>) -> Option<u32> {
    match decimal_number(text, false) {
        Some(v) => if v <= u32::MAX { Some(v as u32) } else { None },
        None => None,
    }
}

/// The value a string denotes as a decimal `u64`, as `str::parse::<u64>` reads it, if any.
pub open spec fn u64_value(text: Seq<char>) -> Option<u64> {
    match decimal_number(text, false) {
        Some(v) => if v <= u64::MAX { Some(v as u64) } else { None },
        None => None,
    }
}

/// Whether a text is well-formed JSON, as `serde_json` reads it.
pub uninterp spec fn json_parses(text: Seq<char>) -> bool;

/// The ASCII byte of a hex digit, lower case.
pub open spec fn hex_digit(n: int) -> u8 {
    if n < 10 { (48 + n) as u8 } else { (87 + n) as u8 }
}

/// Lower-case hex, two digits per byte, most significant first.
pub open spec fn hex_text(data: Seq<u8>) -> Seq<u8> {
    Seq::new(2 * data.len(), |i: int| if i % 2 == 0 { hex_digit(data[i / 2] as int / 16) } else { hex_digit(data[i / 2] as int % 16) })
}

/// The value of one hex digit, either case.
pub open spec fn hex_digit_value(c: char) -> Option<u8> {
    if '0' <= c <= '9' {
        Some((c as int - 48) as u8)
    } else if 'a' <= c <= 'f' {
        Some((c as int - 87) as u8)
    } else if 'A' <= c <= 'F' {
        Some((c as int - 55) as u8)
    } else {
        None
    }
}

/// Whether `text` is hex for exactly `data`, digits in either case.
pub open spec fn is_hex_of(text: Seq<char>, data: Seq<u8>) -> bool {
    &&& text.len() == 2 * data.len()
    &&& forall|i: int| #![trigger data[i]] 0 <= i < data.len() ==> {
        &&& hex_digit_value(text[2 * i]) is Some
        &&& hex_digit_value(text[2 * i + 1]) is Some
        &&& data[i] == hex_digit_value(text[2 * i])->0 * 16 + hex_digit_value(text[2 * i + 1])->0
    }
}

/// The ASCII digits of a non-negative number.
pub open spec fn decimal_digits(n: nat) -> Seq<u8>
    decreases n,
{
    if n < 10 {
        seq![(48 + n) as u8]
    } else {
        decimal_digits(n / 10) + seq![(48 + n % 10) as u8]
    }
}

/// A number in decimal, with a leading `-` when negative.
pub open spec fn decimal_text(n: int) -> Seq<u8> {
    if n < 0 { seq![45u8] + decimal_digits((-n) as nat) } else { decimal_digits(n as nat) }
}

/// The four bits of `x` at hex position `j`, counting from the most significant.
pub open spec fn nibble(x: u128, j: int) -> int {
    (x as int / vstd::arithmetic::power::pow(16, (31 - j) as nat)) % 16
}

/// How many hyphens precede position `i` of a hyphenated UUID.
pub open spec fn hyphens_before(i: int) -> int {
    (if i > 8 { 1int } else { 0 }) + (if i > 13 { 1int } else { 0 }) + (if i > 18 { 1int } else { 0 }) + (if i > 23 { 1int } else { 0 })
}

/// The hyphenated lower-case form of a UUID: 8-4-4-4-12 hex digits.
pub open spec fn uuid_text(x: u128) -> Seq<u8> {
    Seq::new(36, |i: int| if i == 8 || i == 13 || i == 18 || i == 23 { 45u8 } else { hex_digit(nibble(x, i - hyphens_before(i))) })
}

/// Bytes read as characters one for one, as ASCII text is.
pub open spec fn ascii_chars(bytes: Seq<u8>) -> Seq<char> {
    Seq::new(bytes.len(), |i: int| bytes[i] as char)
}

/// The hyphenated lower-case form of a UUID, as text.
pub open spec fn uuid_chars(x: u128) -> Seq<char> {
    ascii_chars(uuid_text(x))
}

/// A number in decimal, as text.
pub open spec fn decimal_chars(n: int) -> Seq<char> {
    ascii_chars(decimal_text(n))
}

/// Whether every byte is ASCII.
pub open spec fn all_ascii(bytes: Seq<u8>) -> bool {
    forall|i: int| 0 <= i < bytes.len() ==> #[trigger] bytes[i] < 128
}

/// ASCII bytes read as text encode back to themselves in UTF-8.
pub proof fn lemma_ascii_encoding(bytes: Seq<u8>)
    requires
        all_ascii(bytes),
    ensures
        is_ascii_chars(ascii_chars(bytes)),
        encode_utf8(ascii_chars(bytes)) == bytes,
{
    let chars = ascii_chars(bytes);
    assert forall|i: int| 0 <= i < chars.len() implies '\0' <= #[trigger] chars[i] <= '\u{7f}' by {
        assert(bytes[i] < 128);
    }
    is_ascii_chars_encode_utf8(chars);
    assert forall|i: int| 0 <= i < bytes.len() implies encode_utf8(chars)[i] == bytes[i] by {
        assert(chars[i] as u8 == encode_utf8(chars)[i]);
        assert(bytes[i] < 128);
    }
    assert(encode_utf8(chars) =~= bytes);
}

proof fn lemma_decimal_digits_ascii(n: nat)
    ensures
        all_ascii(decimal_digits(n)),
    decreases n,
{
    if n >= 10 {
        lemma_decimal_digits_ascii(n / 10);
    }
}

/// A number's decimal text is ASCII.
pub proof fn lemma_decimal_ascii(n: int)
    ensures
        all_ascii(decimal_text(n)),
{
    if n < 0 {
        lemma_decimal_digits_ascii((-n) as nat);
    } else {
        lemma_decimal_digits_ascii(n as nat);
    }
}

proof fn lemma_digits_read_back(n: nat)
    ensures
        ascii_chars(decimal_digits(n)).len() > 0,
        forall|i: int| 0 <= i < ascii_chars(decimal_digits(n)).len() ==> is_decimal_digit(#[trigger] ascii_chars(decimal_digits(n))[i]),
        digits_value(ascii_chars(decimal_digits(n))) == n,
    decreases n,
{
    let chars = ascii_chars(decimal_digits(n));
    if n < 10 {
        let d = (48 + n) as u8;
        assert(chars[0] == d as char);
        assert((d as char) as int == d as int);
        assert(chars.drop_last() =~= Seq::<char>::empty());
        assert(digits_value(chars.drop_last()) == 0);
    } else {
        lemma_digits_read_back(n / 10);
        let before = ascii_chars(decimal_digits(n / 10));
        let d = (48 + n % 10) as u8;
        assert(chars =~= before.push(d as char));
        assert(chars.drop_last() =~= before);
        assert(chars.last() == d as char);
        assert((d as char) as int == d as int);
        assert forall|i: int| 0 <= i < chars.len() implies is_decimal_digit(#[trigger] chars[i]) by {
            if i < before.len() {
                assert(chars[i] == before[i]);
            }
        }
        assert(10 * (n / 10) + n % 10 == n);
    }
}

/// A number's decimal text reads back as that number.
pub proof fn lemma_decimal_reads_back(n: int)
    ensures
        decimal_number(decimal_chars(n), true) == Some(n),
        n >= 0 ==> decimal_number(decimal_chars(n), false) == Some(n),
{
    let text = decimal_chars(n);
    if n < 0 {
        let m = (-n) as nat;
        lemma_digits_read_back(m);
        let digits = ascii_chars(decimal_digits(m));
        assert(text =~= seq!['-'].add(digits));
        assert(text[0] == '-');
        assert(text.skip(1) =~= digits);
    } else {
        lemma_digits_read_back(n as nat);
        let digits = ascii_chars(decimal_digits(n as nat));
        assert(text =~= digits);
        assert(is_decimal_digit(text[0]));
    }
}

/// Whether no byte of `bytes` is a line feed.
pub open spec fn no_newline(bytes: Seq<u8>) -> bool {
    forall|i: int| 0 <= i < bytes.len() ==> #[trigger] bytes[i] != 10
}

/// Decimal, hex and UUID text hold no line feed.
pub proof fn lemma_texts_have_no_newline(n: int, data: Seq<u8>, x: u128)
    ensures
        no_newline(decimal_text(n)),
        no_newline(hex_text(data)),
        no_newline(uuid_text(x)),
{
    let m: nat = if n < 0 { (-n) as nat } else { n as nat };
    lemma_digits_read_back(m);
    let digits = decimal_digits(m);
    assert forall|i: int| 0 <= i < digits.len() implies #[trigger] digits[i] != 10 by {
        assert(is_decimal_digit(ascii_chars(digits)[i]));
        assert((digits[i] as char) as int == digits[i] as int);
    }
    if n < 0 {
        assert forall|i: int| 0 <= i < decimal_text(n).len() implies #[trigger] decimal_text(n)[i] != 10 by {
            if i > 0 {
                assert(decimal_text(n)[i] == digits[i - 1]);
            }
        }
    }
    assert forall|i: int| 0 <= i < hex_text(data).len() implies #[trigger] hex_text(data)[i] != 10 by {
        assert(0 <= data[i / 2] as int / 16 < 16);
        assert(0 <= data[i / 2] as int % 16 < 16);
    }
    assert forall|i: int| 0 <= i < uuid_text(x).len() implies #[trigger] uuid_text(x)[i] != 10 by {
        let j = i - hyphens_before(i);
        assert(0 <= nibble(x, j) < 16);
    }
}

/// Two numbers with the same decimal text are the same number.
pub proof fn lemma_decimal_text_names_one_number(a: int, b: int)
    requires
        decimal_text(a) == decimal_text(b),
    ensures
        a == b,
{
    lemma_decimal_reads_back(a);
    lemma_decimal_reads_back(b);
    assert(decimal_chars(a) == decimal_chars(b));
}

/// Two byte strings with the same hex text are the same bytes.
pub proof fn lemma_hex_text_names_one_value(a: Seq<u8>, b: Seq<u8>)
    requires
        hex_text(a) == hex_text(b),
    ensures
        a == b,
{
    lemma_hex_round_trip(a);
    lemma_hex_round_trip(b);
    let text = ascii_chars(hex_text(a));
    assert(text == ascii_chars(hex_text(b)));
    assert forall|i: int| 0 <= i < a.len() implies a[i] == b[i] by {
        assert(a[i] == hex_digit_value(text[2 * i])->0 * 16 + hex_digit_value(text[2 * i + 1])->0);
        assert(b[i] == hex_digit_value(text[2 * i])->0 * 16 + hex_digit_value(text[2 * i + 1])->0);
    }
    assert(a =~= b);
}

/// A nibble is the four bits a shift brings to the bottom.
proof fn lemma_nibble_is_shifted_bits(x: u128, j: int)
    requires
        0 <= j < 32,
    ensures
        nibble(x, j) == bits_at(x, j) as int,
{
    let k = (31 - j) as nat;
    let shift = (4 * k) as u128;
    vstd::bits::lemma_u128_shr_is_div(x, shift);
    vstd::arithmetic::power2::lemma_pow2(4 * k);
    vstd::arithmetic::power::lemma_pow_multiplies(2, 4, k);
    assert(vstd::arithmetic::power::pow(2, 4) == 16) by {
        reveal_with_fuel(vstd::arithmetic::power::pow, 5);
    }
    let v = x >> shift;
    assert(v & 15u128 == v % 16u128) by (bit_vector);
}

/// Two UUIDs with the same text are the same UUID.
pub proof fn lemma_uuid_text_names_one_value(x: u128, y: u128)
    requires
        uuid_text(x) == uuid_text(y),
    ensures
        x == y,
{
    assert forall|j: int| 0 <= j < 32 implies nibble(x, j) == nibble(y, j) by {
        let i = j + (if j >= 8 { 1int } else { 0 }) + (if j >= 12 { 1int } else { 0 })
            + (if j >= 16 { 1int } else { 0 }) + (if j >= 20 { 1int } else { 0 });
        assert(i - hyphens_before(i) == j);
        assert(0 <= i < 36 && i != 8 && i != 13 && i != 18 && i != 23);
        let a = nibble(x, j);
        let b = nibble(y, j);
        assert(0 <= a < 16);
        assert(0 <= b < 16);
        assert(uuid_text(x)[i] == hex_digit(a));
        assert(uuid_text(y)[i] == hex_digit(b));
        assert(uuid_text(x)[i] == uuid_text(y)[i]);
        assert(hex_digit(a) as int == if a < 10 { 48 + a } else { 87 + a });
        assert(hex_digit(b) as int == if b < 10 { 48 + b } else { 87 + b });
    }
    assert forall|j: int| 0 <= j < 32 implies #[trigger] bits_at(x, j) == bits_at(y, j) by {
        lemma_nibble_is_shifted_bits(x, j);
        lemma_nibble_is_shifted_bits(y, j);
        assert(nibble(x, j) == nibble(y, j));
    }
    lemma_nibbles_decide(x, y);
}

/// The four bits at hex position `j` of `x`, counting from the most significant.
spec fn bits_at(x: u128, j: int) -> u128 {
    (x >> ((4 * (31 - j)) as u128)) & 15u128
}

proof fn lemma_nibbles_decide(x: u128, y: u128)
    requires
        forall|j: int| 0 <= j < 32 ==> #[trigger] bits_at(x, j) == bits_at(y, j),
    ensures
        x == y,
{
    assert(bits_at(x, 31) == bits_at(y, 31) && bits_at(x, 31) == (x >> 0u128) & 15u128 && bits_at(y, 31) == (y >> 0u128) & 15u128) by { assert((4 * (31 - 31int)) as u128 == 0u128); }
    assert(bits_at(x, 30) == bits_at(y, 30) && bits_at(x, 30) == (x >> 4u128) & 15u128 && bits_at(y, 30) == (y >> 4u128) & 15u128) by { assert((4 * (31 - 30int)) as u128 == 4u128); }
    assert(bits_at(x, 29) == bits_at(y, 29) && bits_at(x, 29) == (x >> 8u128) & 15u128 && bits_at(y, 29) == (y >> 8u128) & 15u128) by { assert((4 * (31 - 29int)) as u128 == 8u128); }
    assert(bits_at(x, 28) == bits_at(y, 28) && bits_at(x, 28) == (x >> 12u128) & 15u128 && bits_at(y, 28) == (y >> 12u128) & 15u128) by { assert((4 * (31 - 28int)) as u128 == 12u128); }
    assert(bits_at(x, 27) == bits_at(y, 27) && bits_at(x, 27) == (x >> 16u128) & 15u128 && bits_at(y, 27) == (y >> 16u128) & 15u128) by { assert((4 * (31 - 27int)) as u128 == 16u128); }
    assert(bits_at(x, 26) == bits_at(y, 26) && bits_at(x, 26) == (x >> 20u128) & 15u128 && bits_at(y, 26) == (y >> 20u128) & 15u128) by { assert((4 * (31 - 26int)) as u128 == 20u128); }
    assert(bits_at(x, 25) == bits_at(y, 25) && bits_at(x, 25) == (x >> 24u128) & 15u128 && bits_at(y, 25) == (y >> 24u128) & 15u128) by { assert((4 * (31 - 25int)) as u128 == 24u128); }
    assert(bits_at(x, 24) == bits_at(y, 24) && bits_at(x, 24) == (x >> 28u128) & 15u128 && bits_at(y, 24) == (y >> 28u128) & 15u128) by { assert((4 * (31 - 24int)) as u128 == 28u128); }
    assert(bits_at(x, 23) == bits_at(y, 23) && bits_at(x, 23) == (x >> 32u128) & 15u128 && bits_at(y, 23) == (y >> 32u128) & 15u128) by { assert((4 * (31 - 23int)) as u128 == 32u128); }
    assert(bits_at(x, 22) == bits_at(y, 22) && bits_at(x, 22) == (x >> 36u128) & 15u128 && bits_at(y, 22) == (y >> 36u128) & 15u128) by { assert((4 * (31 - 22int)) as u128 == 36u128); }
    assert(bits_at(x, 21) == bits_at(y, 21) && bits_at(x, 21) == (x >> 40u128) & 15u128 && bits_at(y, 21) == (y >> 40u128) & 15u128) by { assert((4 * (31 - 21int)) as u128 == 40u128); }
    assert(bits_at(x, 20) == bits_at(y, 20) && bits_at(x, 20) == (x >> 44u128) & 15u128 && bits_at(y, 20) == (y >> 44u128) & 15u128) by { assert((4 * (31 - 20int)) as u128 == 44u128); }
    assert(bits_at(x, 19) == bits_at(y, 19) && bits_at(x, 19) == (x >> 48u128) & 15u128 && bits_at(y, 19) == (y >> 48u128) & 15u128) by { assert((4 * (31 - 19int)) as u128 == 48u128); }
    assert(bits_at(x, 18) == bits_at(y, 18) && bits_at(x, 18) == (x >> 52u128) & 15u128 && bits_at(y, 18) == (y >> 52u128) & 15u128) by { assert((4 * (31 - 18int)) as u128 == 52u128); }
    assert(bits_at(x, 17) == bits_at(y, 17) && bits_at(x, 17) == (x >> 56u128) & 15u128 && bits_at(y, 17) == (y >> 56u128) & 15u128) by { assert((4 * (31 - 17int)) as u128 == 56u128); }
    assert(bits_at(x, 16) == bits_at(y, 16) && bits_at(x, 16) == (x >> 60u128) & 15u128 && bits_at(y, 16) == (y >> 60u128) & 15u128) by { assert((4 * (31 - 16int)) as u128 == 60u128); }
    assert(bits_at(x, 15) == bits_at(y, 15) && bits_at(x, 15) == (x >> 64u128) & 15u128 && bits_at(y, 15) == (y >> 64u128) & 15u128) by { assert((4 * (31 - 15int)) as u128 == 64u128); }
    assert(bits_at(x, 14) == bits_at(y, 14) && bits_at(x, 14) == (x >> 68u128) & 15u128 && bits_at(y, 14) == (y >> 68u128) & 15u128) by { assert((4 * (31 - 14int)) as u128 == 68u128); }
    assert(bits_at(x, 13) == bits_at(y, 13) && bits_at(x, 13) == (x >> 72u128) & 15u128 && bits_at(y, 13) == (y >> 72u128) & 15u128) by { assert((4 * (31 - 13int)) as u128 == 72u128); }
    assert(bits_at(x, 12) == bits_at(y, 12) && bits_at(x, 12) == (x >> 76u128) & 15u128 && bits_at(y, 12) == (y >> 76u128) & 15u128) by { assert((4 * (31 - 12int)) as u128 == 76u128); }
    assert(bits_at(x, 11) == bits_at(y, 11) && bits_at(x, 11) == (x >> 80u128) & 15u128 && bits_at(y, 11) == (y >> 80u128) & 15u128) by { assert((4 * (31 - 11int)) as u128 == 80u128); }
    assert(bits_at(x, 10) == bits_at(y, 10) && bits_at(x, 10) == (x >> 84u128) & 15u128 && bits_at(y, 10) == (y >> 84u128) & 15u128) by { assert((4 * (31 - 10int)) as u128 == 84u128); }
    assert(bits_at(x, 9) == bits_at(y, 9) && bits_at(x, 9) == (x >> 88u128) & 15u128 && bits_at(y, 9) == (y >> 88u128) & 15u128) by { assert((4 * (31 - 9int)) as u128 == 88u128); }
    assert(bits_at(x, 8) == bits_at(y, 8) && bits_at(x, 8) == (x >> 92u128) & 15u128 && bits_at(y, 8) == (y >> 92u128) & 15u128) by { assert((4 * (31 - 8int)) as u128 == 92u128); }
    assert(bits_at(x, 7) == bits_at(y, 7) && bits_at(x, 7) == (x >> 96u128) & 15u128 && bits_at(y, 7) == (y >> 96u128) & 15u128) by { assert((4 * (31 - 7int)) as u128 == 96u128); }
    assert(bits_at(x, 6) == bits_at(y, 6) && bits_at(x, 6) == (x >> 100u128) & 15u128 && bits_at(y, 6) == (y >> 100u128) & 15u128) by { assert((4 * (31 - 6int)) as u128 == 100u128); }
    assert(bits_at(x, 5) == bits_at(y, 5) && bits_at(x, 5) == (x >> 104u128) & 15u128 && bits_at(y, 5) == (y >> 104u128) & 15u128) by { assert((4 * (31 - 5int)) as u128 == 104u128); }
    assert(bits_at(x, 4) == bits_at(y, 4) && bits_at(x, 4) == (x >> 108u128) & 15u128 && bits_at(y, 4) == (y >> 108u128) & 15u128) by { assert((4 * (31 - 4int)) as u128 == 108u128); }
    assert(bits_at(x, 3) == bits_at(y, 3) && bits_at(x, 3) == (x >> 112u128) & 15u128 && bits_at(y, 3) == (y >> 112u128) & 15u128) by { assert((4 * (31 - 3int)) as u128 == 112u128); }
    assert(bits_at(x, 2) == bits_at(y, 2) && bits_at(x, 2) == (x >> 116u128) & 15u128 && bits_at(y, 2) == (y >> 116u128) & 15u128) by { assert((4 * (31 - 2int)) as u128 == 116u128); }
    assert(bits_at(x, 1) == bits_at(y, 1) && bits_at(x, 1) == (x >> 120u128) & 15u128 && bits_at(y, 1) == (y >> 120u128) & 15u128) by { assert((4 * (31 - 1int)) as u128 == 120u128); }
    assert(bits_at(x, 0) == bits_at(y, 0) && bits_at(x, 0) == (x >> 124u128) & 15u128 && bits_at(y, 0) == (y >> 124u128) & 15u128) by { assert((4 * (31 - 0int)) as u128 == 124u128); }
    assert(x == y) by (bit_vector)
        requires
            (x >> 0u128) & 15u128 == (y >> 0u128) & 15u128,
            (x >> 4u128) & 15u128 == (y >> 4u128) & 15u128,
            (x >> 8u128) & 15u128 == (y >> 8u128) & 15u128,
            (x >> 12u128) & 15u128 == (y >> 12u128) & 15u128,
            (x >> 16u128) & 15u128 == (y >> 16u128) & 15u128,
            (x >> 20u128) & 15u128 == (y >> 20u128) & 15u128,
            (x >> 24u128) & 15u128 == (y >> 24u128) & 15u128,
            (x >> 28u128) & 15u128 == (y >> 28u128) & 15u128,
            (x >> 32u128) & 15u128 == (y >> 32u128) & 15u128,
            (x >> 36u128) & 15u128 == (y >> 36u128) & 15u128,
            (x >> 40u128) & 15u128 == (y >> 40u128) & 15u128,
            (x >> 44u128) & 15u128 == (y >> 44u128) & 15u128,
            (x >> 48u128) & 15u128 == (y >> 48u128) & 15u128,
            (x >> 52u128) & 15u128 == (y >> 52u128) & 15u128,
            (x >> 56u128) & 15u128 == (y >> 56u128) & 15u128,
            (x >> 60u128) & 15u128 == (y >> 60u128) & 15u128,
            (x >> 64u128) & 15u128 == (y >> 64u128) & 15u128,
            (x >> 68u128) & 15u128 == (y >> 68u128) & 15u128,
            (x >> 72u128) & 15u128 == (y >> 72u128) & 15u128,
            (x >> 76u128) & 15u128 == (y >> 76u128) & 15u128,
            (x >> 80u128) & 15u128 == (y >> 80u128) & 15u128,
            (x >> 84u128) & 15u128 == (y >> 84u128) & 15u128,
            (x >> 88u128) & 15u128 == (y >> 88u128) & 15u128,
            (x >> 92u128) & 15u128 == (y >> 92u128) & 15u128,
            (x >> 96u128) & 15u128 == (y >> 96u128) & 15u128,
            (x >> 100u128) & 15u128 == (y >> 100u128) & 15u128,
            (x >> 104u128) & 15u128 == (y >> 104u128) & 15u128,
            (x >> 108u128) & 15u128 == (y >> 108u128) & 15u128,
            (x >> 112u128) & 15u128 == (y >> 112u128) & 15u128,
            (x >> 116u128) & 15u128 == (y >> 116u128) & 15u128,
            (x >> 120u128) & 15u128 == (y >> 120u128) & 15u128,
            (x >> 124u128) & 15u128 == (y >> 124u128) & 15u128,
    ;
}

/// A UUID's text is ASCII.
pub proof fn lemma_uuid_ascii(x: u128)
    ensures
        all_ascii(uuid_text(x)),
{
    assert forall|i: int| 0 <= i < uuid_text(x).len() implies #[trigger] uuid_text(x)[i] < 128 by {
        let j = i - hyphens_before(i);
        assert(0 <= nibble(x, j) < 16);
    }
}

/// Hex text is ASCII.
pub proof fn lemma_hex_ascii(data: Seq<u8>)
    ensures
        all_ascii(hex_text(data)),
{
    assert forall|i: int| 0 <= i < hex_text(data).len() implies #[trigger] hex_text(data)[i] < 128 by {
        assert(0 <= data[i / 2] as int / 16 < 16);
        assert(0 <= data[i / 2] as int % 16 < 16);
    }
}

/// Hex text spells the bytes it was made from.
pub proof fn lemma_hex_round_trip(data: Seq<u8>)
    ensures
        is_hex_of(ascii_chars(hex_text(data)), data),
{
    let text = ascii_chars(hex_text(data));
    assert forall|i: int| #![trigger data[i]] 0 <= i < data.len() implies {
        &&& hex_digit_value(text[2 * i]) is Some
        &&& hex_digit_value(text[2 * i + 1]) is Some
        &&& data[i] == hex_digit_value(text[2 * i])->0 * 16 + hex_digit_value(text[2 * i + 1])->0
    } by {
        let high = data[i] as int / 16;
        let low = data[i] as int % 16;
        assert((2 * i) / 2 == i);
        assert((2 * i + 1) / 2 == i);
        assert((2 * i) % 2 == 0);
        assert((2 * i + 1) % 2 == 1);
        assert(text[2 * i] == hex_digit(high) as char);
        assert(text[2 * i + 1] == hex_digit(low) as char);
    }
}

/// SHA-256 of `data`, through `sha2::Sha256::digest`.
#[verifier::external_body]
pub(crate) fn sha256_digest(data: &[u8]) -> (r: [u8; 32])
    ensures
        r@ == sha256(data@),
{
    sha2::Sha256::digest(data).into()
}

/// `base64::engine::general_purpose::URL_SAFE_NO_PAD.encode`: unpadded base64url, four
/// characters for every three bytes and a shorter tail.
#[verifier::external_body]
pub(crate) fn base64url_encode(data: &[u8]) -> (r: String)
    requires
        data@.len() <= usize::MAX / 2,
    ensures
        r@ == base64url(data@),
        r@.len() == (4 * data@.len() + 2) / 3,
        !r@.contains('='),
{
    base64::engine::general_purpose::URL_SAFE_NO_PAD.encode(data)
}

/// `base64::engine::general_purpose::URL_SAFE_NO_PAD.decode`: accepts exactly the canonical
/// unpadded base64url encodings, so a decoded value is the one value that encodes to the input.
#[verifier::external_body]
pub(crate) fn base64url_decode(text: &str) -> (r: Option<Vec<u8>>)
    ensures
        r matches Some(data) ==> base64url(data@) == text@,
        r matches Some(data) ==> forall|other: Seq<u8>| #[trigger] base64url(other) == text@ ==> other == data@,
        r is None ==> forall|other: Seq<u8>| #[trigger] base64url(other) != text@,
{
    base64::engine::general_purpose::URL_SAFE_NO_PAD.decode(text).ok()
}

/// `hex::encode`: lower-case hex, two digits per byte.
#[verifier::external_body]
pub(crate) fn hex_encode(data: &[u8]) -> (r: String)
    ensures
        r@ == ascii_chars(hex_text(data@)),
{
    hex::encode(data)
}

/// `hex::decode`: the bytes an even-length string of hex digits (either case) spells.
#[verifier::external_body]
pub(crate) fn hex_decode(text: &str) -> (r: Option<Vec<u8>>)
    ensures
        r matches Some(data) ==> is_hex_of(text@, data@),
        r is None ==> forall|data: Seq<u8>| !#[trigger] is_hex_of(text@, data),
{
    hex::decode(text).ok()
}

/// `uuid::Uuid`'s `Display`: the hyphenated lower-case form, which `uuid` parses back to the
/// same value.
#[verifier::external_body]
pub(crate) fn uuid_string(x: u128) -> (r: String)
    ensures
        r@ == uuid_chars(x),
        uuid_value(r@) == Some(x),
{
    uuid::Uuid::from_u128(x).to_string()
}

/// `str::parse::<uuid::Uuid>`, as the 128-bit value, or the reason `uuid` gives for refusing.
#[verifier::external_body]
pub(crate) fn parse_uuid(text: &str) -> (r: Result<u128, String>)
    ensures
        r is Ok <==> uuid_value(text@) is Some,
        r matches Ok(id) ==> uuid_value(text@) == Some(id),
{
    match text.parse::<uuid::Uuid>() {
        Ok(id) => Ok(id.as_u128()),
        Err(error) => Err(error.to_string()),
    }
}

/// `i64`'s `Display`: decimal, with a leading `-` when negative.
#[verifier::external_body]
pub(crate) fn i64_string(n: i64) -> (r: String)
    ensures
        r@ == decimal_chars(n as int),
{
    n.to_string()
}

/// `usize`'s `Display`: decimal.
#[verifier::external_body]
pub(crate) fn usize_string(n: usize) -> (r: String)
    ensures
        r@ == decimal_chars(n as int),
{
    n.to_string()
}

/// `u64`'s `Display`: decimal.
#[verifier::external_body]
pub(crate) fn u64_string(n: u64) -> (r: String)
    ensures
        r@ == decimal_chars(n as int),
{
    n.to_string()
}

/// `str::parse::<i64>`.
#[verifier::external_body]
pub(crate) fn parse_i64(text: &str) -> (r: Option<i64>)
    ensures
        r == i64_value(text@),
{
    text.parse::<i64>().ok()
}

/// `str::parse::<usize>`.
#[verifier::external_body]
pub(crate) fn parse_usize(text: &str) -> (r: Option<usize>)
    ensures
        r == usize_value(text@),
{
    text.parse::<usize>().ok()
}

/// `serde_json::from_str::<serde_json::Value>`, for whether it succeeds, with `serde_json`'s
/// reason when it does not.
#[verifier::external_body]
pub(crate) fn check_json(text: &str) -> (r: Result<(), String>)
    ensures
        r is Ok <==> json_parses(text@),
{
    match serde_json::from_str::<serde_json::Value>(text) {
        Ok(_) => Ok(()),
        Err(error) => Err(error.to_string()),
    }
}

/// `str::parse::<u32>`, with the reason std gives for refusing.
#[verifier::external_body]
pub(crate) fn parse_u32(text: &str) -> (r: Result<u32, String>)
    ensures
        r is Ok <==> u32_value(text@) is Some,
        r matches Ok(value) ==> u32_value(text@) == Some(value),
{
    text.parse::<u32>().map_err(|error| error.to_string())
}

/// `str::parse::<u64>`, with the reason std gives for refusing.
#[verifier::external_body]
pub(crate) fn parse_u64(text: &str) -> (r: Result<u64, String>)
    ensures
        r is Ok <==> u64_value(text@) is Some,
        r matches Ok(value) ==> u64_value(text@) == Some(value),
{
    text.parse::<u64>().map_err(|error| error.to_string())
}

} // verus!
