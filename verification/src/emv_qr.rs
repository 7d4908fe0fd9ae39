//! EMV (QRCPS) merchant-presented QR payload builder, in the QRIS profile.
//!
//! The payload is a sequence of TLV objects (two-digit id, two-digit length,
//! value) closed by a CRC-16/CCITT-FALSE checksum object:
//!
//! ```text
//! 00 payload format "01"          01 initiation "11" static | "12" dynamic
//! 26 merchant account (26-00 GUI, 26-01 merchant identifier)
//! 52 merchant category code       53 currency (ISO-4217 numeric)
//! 54 amount (omitted when absent) 58 country (alpha-2, uppercased)
//! 59 merchant name (<= 25)        60 merchant city (<= 15)
//! 62 additional data (62-01 reference, <= 25)
//! 63 CRC over everything before it, "6304" included
//! ```
//!
//! Every refusal is typed and there is no fallback payload.

use crate::amount::{decimal_fixed2_text, fixed2_text, lemma_pow10_positive, number_char, pow10, Amount};
use crate::text::{ascii_upper, to_ascii_uppercase, chars_of, is_ws, string_of, trim, trim_chars, trim_end, trim_start};
use vstd::prelude::*;

verus! {

/// Field-length limits of the merchant-presented specification.
pub const MAX_MERCHANT_NAME: usize = 25;

pub const MAX_MERCHANT_CITY: usize = 15;

pub const MAX_REFERENCE: usize = 25;

/// Longest transaction-amount text (decimal separator included).
pub const MAX_AMOUNT_LEN: usize = 13;

// ---------------------------------------------------------------------------
// Character folding
// ---------------------------------------------------------------------------

/// The accent-fold table: an accented Latin letter to its plain letter; every
/// other character to itself.
pub open spec fn fold_accent(c: char) -> char {
    let u = c as u32;
    if 0xC0 <= u <= 0xC5 {
        'A'
    } else if 0xE0 <= u <= 0xE5 {
        'a'
    } else if 0xC8 <= u <= 0xCB {
        'E'
    } else if 0xE8 <= u <= 0xEB {
        'e'
    } else if 0xCC <= u <= 0xCF {
        'I'
    } else if 0xEC <= u <= 0xEF {
        'i'
    } else if 0xD2 <= u <= 0xD6 {
        'O'
    } else if 0xF2 <= u <= 0xF6 {
        'o'
    } else if 0xD9 <= u <= 0xDC {
        'U'
    } else if 0xF9 <= u <= 0xFC {
        'u'
    } else if u == 0xDD {
        'Y'
    } else if u == 0xFD || u == 0xFF {
        'y'
    } else if u == 0xD1 {
        'N'
    } else if u == 0xF1 {
        'n'
    } else if u == 0xC7 {
        'C'
    } else if u == 0xE7 {
        'c'
    } else if u == 0x110 {
        'D'
    } else if u == 0x111 {
        'd'
    } else {
        c
    }
}

/// A combining diacritical mark (U+0300..U+036F).
pub open spec fn combining_mark(c: char) -> bool {
    0x300 <= (c as u32) <= 0x36F
}

/// A printable ASCII character (U+0020..U+007E).
pub open spec fn printable_ascii(c: char) -> bool {
    0x20 <= (c as u32) <= 0x7E
}

/// A character that survives folding.
pub open spec fn kept(c: char) -> bool {
    !combining_mark(c) && printable_ascii(c)
}

/// Each character decomposed through the fold table, keeping the printable
/// ASCII non-combining results.
pub open spec fn fold_chars(s: Seq<char>) -> Seq<char>
    decreases s.len(),
{
    if s.len() == 0 {
        seq![]
    } else {
        let d = fold_accent(s.last());
        if kept(d) {
            fold_chars(s.drop_last()).push(d)
        } else {
            fold_chars(s.drop_last())
        }
    }
}

/// The EMV alphanumeric folding of a free-text field: trim, fold accents,
/// drop combining marks and non-printable characters, trim again.
pub open spec fn fold_text(s: Seq<char>) -> Seq<char> {
    trim(fold_chars(trim(s)))
}

/// The canonical decomposition of `ch` over the accent-fold table.
pub fn decompose(ch: char) -> (r: Vec<char>)
    ensures
        r@ == seq![fold_accent(ch)],
{
    let u = ch as u32;
    let plain = if 0xC0 <= u && u <= 0xC5 {
        'A'
    } else if 0xE0 <= u && u <= 0xE5 {
        'a'
    } else if 0xC8 <= u && u <= 0xCB {
        'E'
    } else if 0xE8 <= u && u <= 0xEB {
        'e'
    } else if 0xCC <= u && u <= 0xCF {
        'I'
    } else if 0xEC <= u && u <= 0xEF {
        'i'
    } else if 0xD2 <= u && u <= 0xD6 {
        'O'
    } else if 0xF2 <= u && u <= 0xF6 {
        'o'
    } else if 0xD9 <= u && u <= 0xDC {
        'U'
    } else if 0xF9 <= u && u <= 0xFC {
        'u'
    } else if u == 0xDD {
        'Y'
    } else if u == 0xFD || u == 0xFF {
        'y'
    } else if u == 0xD1 {
        'N'
    } else if u == 0xF1 {
        'n'
    } else if u == 0xC7 {
        'C'
    } else if u == 0xE7 {
        'c'
    } else if u == 0x110 {
        'D'
    } else if u == 0x111 {
        'd'
    } else {
        ch
    };
    let mut r: Vec<char> = Vec::new();
    r.push(plain);
    r
}

/// Unicode combining diacritical marks block (U+0300..U+036F).
pub fn is_combining_mark(ch: char) -> (r: bool)
    ensures
        r == combining_mark(ch),
{
    let u = ch as u32;
    0x300 <= u && u <= 0x36F
}

/// Printable ASCII (U+0020..U+007E).
pub fn is_printable_ascii(ch: char) -> (r: bool)
    ensures
        r == printable_ascii(ch),
{
    let u = ch as u32;
    0x20 <= u && u <= 0x7E
}

/// Fold a free-text field into the EMV alphanumeric charset: accents
/// stripped ("SÜRABAYA" to "SURABAYA"), non-printable-ASCII removed, trimmed.
pub fn fold_alphanum(text: &str) -> (r: String)
    ensures
        r@ == fold_text(text@),
{
    let raw = chars_of(text);
    let t = trim_chars(&raw);
    let mut out: Vec<char> = Vec::new();
    let mut i: usize = 0;
    while i < t.len()
        invariant
            i <= t.len(),
            out@ == fold_chars(t@.subrange(0, i as int)),
        decreases t.len() - i,
    {
        let d = decompose(t[i]);
        let mut k: usize = 0;
        proof {
            assert(t@.subrange(0, i + 1).drop_last() =~= t@.subrange(0, i as int));
        }
        while k < d.len()
            invariant
                d@ == seq![fold_accent(t@[i as int])],
                k <= d.len(),
                i < t.len(),
                t@.subrange(0, i + 1).drop_last() == t@.subrange(0, i as int),
                t@.subrange(0, i + 1).last() == t@[i as int],
                k == 0 ==> out@ == fold_chars(t@.subrange(0, i as int)),
                k == 1 ==> out@ == fold_chars(t@.subrange(0, i + 1)),
            decreases d.len() - k,
        {
            let c = d[k];
            if !is_combining_mark(c) && is_printable_ascii(c) {
                out.push(c);
            }
            k = k + 1;
        }
        i = i + 1;
    }
    proof {
        assert(t@.subrange(0, t.len() as int) =~= t@);
    }
    let folded = trim_chars(&out);
    string_of(&folded)
}

// ---------------------------------------------------------------------------
// Lemmas on folding
// ---------------------------------------------------------------------------

/// Every character of `s` satisfies `p`.
pub open spec fn all_chars(s: Seq<char>, p: spec_fn(char) -> bool) -> bool {
    forall|i: int| 0 <= i < s.len() ==> p(#[trigger] s[i])
}

pub proof fn lemma_trim_start_keeps(s: Seq<char>, p: spec_fn(char) -> bool)
    requires
        all_chars(s, p),
    ensures
        all_chars(trim_start(s), p),
        !(trim_start(s).len() > 0 && is_ws(trim_start(s)[0])),
    decreases s.len(),
{
    if s.len() > 0 && is_ws(s[0]) {
        assert forall|i: int| 0 <= i < s.drop_first().len() implies p(#[trigger] s.drop_first()[i]) by {
            assert(s.drop_first()[i] == s[i + 1]);
        }
        lemma_trim_start_keeps(s.drop_first(), p);
    }
}

pub proof fn lemma_trim_end_keeps(s: Seq<char>, p: spec_fn(char) -> bool)
    requires
        all_chars(s, p),
    ensures
        all_chars(trim_end(s), p),
        !(trim_end(s).len() > 0 && is_ws(trim_end(s).last())),
    decreases s.len(),
{
    if s.len() > 0 && is_ws(s.last()) {
        assert forall|i: int| 0 <= i < s.drop_last().len() implies p(#[trigger] s.drop_last()[i]) by {
            assert(s.drop_last()[i] == s[i]);
        }
        lemma_trim_end_keeps(s.drop_last(), p);
    }
}

/// `trim_end` of a text that starts with a non-space still starts with it.
pub proof fn lemma_trim_end_first(s: Seq<char>)
    requires
        !(s.len() > 0 && is_ws(s[0])),
    ensures
        !(trim_end(s).len() > 0 && is_ws(trim_end(s)[0])),
    decreases s.len(),
{
    if s.len() > 0 && is_ws(s.last()) {
        if s.len() > 1 {
            assert(s.drop_last()[0] == s[0]);
        }
        lemma_trim_end_first(s.drop_last());
    }
}

/// A trimmed text satisfies `p` everywhere when the input did, and has no
/// whitespace at either end.
pub proof fn lemma_trim_keeps(s: Seq<char>, p: spec_fn(char) -> bool)
    requires
        all_chars(s, p),
    ensures
        all_chars(trim(s), p),
        !(trim(s).len() > 0 && is_ws(trim(s)[0])),
        !(trim(s).len() > 0 && is_ws(trim(s).last())),
{
    lemma_trim_start_keeps(s, p);
    lemma_trim_end_keeps(trim_start(s), p);
    lemma_trim_end_first(trim_start(s));
}

/// A text with no whitespace at either end is its own trim.
pub proof fn lemma_trim_fixed(s: Seq<char>)
    requires
        !(s.len() > 0 && is_ws(s[0])),
        !(s.len() > 0 && is_ws(s.last())),
    ensures
        trim(s) == s,
{
}

/// Folding leaves printable ASCII text unchanged.
pub proof fn lemma_fold_chars_printable(s: Seq<char>)
    requires
        all_chars(s, |c: char| printable_ascii(c)),
    ensures
        fold_chars(s) == s,
    decreases s.len(),
{
    if s.len() > 0 {
        assert forall|i: int| 0 <= i < s.drop_last().len() implies printable_ascii(
            #[trigger] s.drop_last()[i],
        ) by {
            assert(s.drop_last()[i] == s[i]);
        }
        lemma_fold_chars_printable(s.drop_last());
        assert(printable_ascii(s[s.len() - 1]));
        assert(s.drop_last().push(s.last()) =~= s);
    }
}

/// Folded characters are printable ASCII.
pub proof fn lemma_fold_chars_printable_out(s: Seq<char>)
    ensures
        all_chars(fold_chars(s), |c: char| printable_ascii(c)),
    decreases s.len(),
{
    if s.len() > 0 {
        lemma_fold_chars_printable_out(s.drop_last());
        let d = fold_accent(s.last());
        if kept(d) {
            let f = fold_chars(s.drop_last());
            assert forall|i: int| 0 <= i < f.push(d).len() implies printable_ascii(
                #[trigger] f.push(d)[i],
            ) by {
                if i < f.len() {
                    assert(f.push(d)[i] == f[i]);
                }
            }
        }
    }
}

/// Folding is idempotent: a folded field folds to itself.
pub proof fn lemma_fold_text_idempotent(s: Seq<char>)
    ensures
        fold_text(fold_text(s)) == fold_text(s),
{
    let p = |c: char| printable_ascii(c);
    let t = fold_text(s);
    lemma_fold_chars_printable_out(trim(s));
    lemma_trim_keeps(fold_chars(trim(s)), p);
    lemma_trim_fixed(t);
    lemma_fold_chars_printable(t);
}

proof fn lemma_trim_sides_shorter(s: Seq<char>)
    ensures
        trim_start(s).len() <= s.len(),
        trim_end(s).len() <= s.len(),
    decreases s.len(),
{
    if s.len() > 0 {
        lemma_trim_sides_shorter(s.drop_first());
        lemma_trim_sides_shorter(s.drop_last());
    }
}

proof fn lemma_trim_shorter(s: Seq<char>)
    ensures
        trim(s).len() <= s.len(),
{
    lemma_trim_sides_shorter(s);
    lemma_trim_sides_shorter(trim_start(s));
}

proof fn lemma_fold_chars_shorter(s: Seq<char>)
    ensures
        fold_chars(s).len() <= s.len(),
    decreases s.len(),
{
    if s.len() > 0 {
        lemma_fold_chars_shorter(s.drop_last());
    }
}

/// The EMV folding of a free-text field: the result is printable ASCII,
/// already trimmed, no longer than the input, and folds to itself; a field
/// that is printable ASCII already is only trimmed.
pub proof fn lemma_fold_text_law(s: Seq<char>)
    ensures
        printable_text(fold_text(s)),
        trim(fold_text(s)) == fold_text(s),
        fold_text(s).len() <= s.len(),
        fold_text(fold_text(s)) == fold_text(s),
        printable_text(s) ==> fold_text(s) == trim(s),
{
    let p = |c: char| printable_ascii(c);
    lemma_fold_text_printable(s);
    lemma_fold_chars_printable_out(trim(s));
    lemma_trim_keeps(fold_chars(trim(s)), p);
    lemma_trim_fixed(fold_text(s));
    lemma_trim_shorter(s);
    lemma_fold_chars_shorter(trim(s));
    lemma_trim_shorter(fold_chars(trim(s)));
    lemma_fold_text_idempotent(s);
    if printable_text(s) {
        assert(all_chars(s, p));
        lemma_trim_keeps(s, p);
        lemma_fold_chars_printable(trim(s));
        lemma_trim_fixed(trim(s));
    }
}

// ---------------------------------------------------------------------------
// CRC-16/CCITT-FALSE
// ---------------------------------------------------------------------------

/// One bit step of CRC-16/CCITT-FALSE: shift left, xor the polynomial 0x1021
/// when the bit shifted out was set.
pub open spec fn crc_bit(crc: u16) -> u16 {
    if crc & 0x8000 != 0 {
        ((crc << 1u16) ^ 0x1021u16) as u16
    } else {
        (crc << 1u16) as u16
    }
}

/// `n` bit steps.
pub open spec fn crc_bits(crc: u16, n: nat) -> u16
    decreases n,
{
    if n == 0 {
        crc
    } else {
        crc_bits(crc_bit(crc), (n - 1) as nat)
    }
}

/// One byte: xor it into the high byte, then eight bit steps.
pub open spec fn crc_byte(crc: u16, b: u8) -> u16 {
    crc_bits(crc ^ (((b as u16) << 8u16) as u16), 8)
}

/// The register after feeding `data`, starting from `init`.
pub open spec fn crc_feed(init: u16, data: Seq<u8>) -> u16
    decreases data.len(),
{
    if data.len() == 0 {
        init
    } else {
        crc_byte(crc_feed(init, data.drop_last()), data.last())
    }
}

/// CRC-16/CCITT-FALSE: poly 0x1021, init 0xFFFF, no reflection, no final xor.
pub open spec fn crc16_of(data: Seq<u8>) -> u16 {
    crc_feed(0xFFFF, data)
}

/// CRC-16/CCITT-FALSE of `data` (check value: `crc16(b"123456789") == 0x29B1`).
pub fn crc16(data: &[u8]) -> (r: u16)
    ensures
        r == crc16_of(data@),
{
    let mut crc: u16 = 0xFFFF;
    let mut i: usize = 0;
    while i < data.len()
        invariant
            i <= data.len(),
            crc == crc_feed(0xFFFF, data@.subrange(0, i as int)),
        decreases data.len() - i,
    {
        let byte = data[i];
        let start: u16 = crc ^ ((byte as u16) << 8u16);
        crc = start;
        let mut k: u32 = 0;
        while k < 8
            invariant
                k <= 8,
                crc_bits(crc, (8 - k) as nat) == crc_bits(start, 8),
            decreases 8 - k,
        {
            crc = if crc & 0x8000 != 0 {
                (crc << 1u16) ^ 0x1021
            } else {
                crc << 1u16
            };
            k = k + 1;
        }
        proof {
            let t = data@.subrange(0, i + 1);
            assert(t.drop_last() =~= data@.subrange(0, i as int));
            assert(t.last() == byte);
        }
        i = i + 1;
    }
    proof {
        assert(data@.subrange(0, data.len() as int) =~= data@);
    }
    crc
}

/// Eight bit steps from a register whose high byte is clear only shift it:
/// the low byte comes out as the high byte.
proof fn lemma_crc_bits_low_byte(x: u16)
    requires
        x <= 0xFF,
    ensures
        crc_bits(x, 8) == ((x << 8u16) as u16),
{
    reveal_with_fuel(crc_bits, 9);
    assert(crc_bit(crc_bit(crc_bit(crc_bit(crc_bit(crc_bit(crc_bit(crc_bit(x)))))))) == ((x << 8u16) as u16))
        by (bit_vector)
        requires
            x <= 0xFF,
    ;
}

/// The big-endian bytes of a register.
pub open spec fn crc_be_bytes(c: u16) -> Seq<u8> {
    seq![(c >> 8u16) as u8, (c & 0xFFu16) as u8]
}

/// Feeding a register its own value, high byte first, clears it.
proof fn lemma_crc_self_feed(c: u16)
    ensures
        crc_byte(crc_byte(c, (c >> 8u16) as u8), (c & 0xFFu16) as u8) == 0,
{
    let h = (c >> 8u16) as u8;
    let l = (c & 0xFFu16) as u8;
    let x = (c ^ (((h as u16) << 8u16) as u16)) as u16;
    assert(x == c & 0xFFu16 && x <= 0xFF) by (bit_vector)
        requires
            h == (c >> 8u16) as u8,
            x == (c ^ (((h as u16) << 8u16) as u16)) as u16,
    ;
    lemma_crc_bits_low_byte(x);
    let y = ((x << 8u16) as u16);
    let z = (y ^ (((l as u16) << 8u16) as u16)) as u16;
    assert(z == 0) by (bit_vector)
        requires
            x == c & 0xFFu16,
            y == ((x << 8u16) as u16),
            l == (c & 0xFFu16) as u8,
            z == (y ^ (((l as u16) << 8u16) as u16)) as u16,
    ;
    lemma_crc_bits_low_byte(0);
    assert(((0u16 << 8u16) as u16) == 0) by (bit_vector);
}

/// The CRC checks itself: appending the CRC-16/CCITT-FALSE of `data` to the
/// data, high byte first, gives a message whose CRC is zero (no reflection
/// and no final xor leave the remainder untouched).
pub proof fn lemma_crc16_residue(data: Seq<u8>)
    ensures
        crc16_of(data + crc_be_bytes(crc16_of(data))) == 0,
{
    let c = crc16_of(data);
    let m = data + crc_be_bytes(c);
    assert(m.drop_last() =~= data.push((c >> 8u16) as u8));
    assert(m.drop_last().drop_last() =~= data);
    assert(m.last() == (c & 0xFFu16) as u8);
    assert(m.drop_last().last() == (c >> 8u16) as u8);
    assert(crc_feed(0xFFFF, m.drop_last()) == crc_byte(crc_feed(0xFFFF, m.drop_last().drop_last()), m.drop_last().last()));
    assert(crc_feed(0xFFFF, m) == crc_byte(crc_feed(0xFFFF, m.drop_last()), m.last()));
    lemma_crc_self_feed(c);
}

// ---------------------------------------------------------------------------
// Number and TLV text
// ---------------------------------------------------------------------------

/// The decimal digit for `d < 10`.
pub open spec fn digit_char(d: nat) -> char {
    ((d + 48) as u32) as char
}

/// The decimal representation of `n` (no leading zeros; "0" for zero).
pub open spec fn decimal_text(n: nat) -> Seq<char>
    decreases n,
{
    if n < 10 {
        seq![digit_char(n)]
    } else {
        decimal_text(n / 10).push(digit_char(n % 10))
    }
}

/// `n` formatted as `{:02}`: at least two digits, zero padded.
pub open spec fn pad2(n: nat) -> Seq<char> {
    if n < 10 {
        seq!['0', digit_char(n)]
    } else {
        decimal_text(n)
    }
}

/// An uppercase hexadecimal digit for `d < 16`.
pub open spec fn hex_char(d: u16) -> char {
    if d < 10 {
        ((d + 48) as u32) as char
    } else {
        ((d + 55) as u32) as char
    }
}

/// `v` as four uppercase hexadecimal digits (`{:04X}`).
pub open spec fn hex4(v: u16) -> Seq<char> {
    seq![
        hex_char(((v >> 12u16) & 0xFu16) as u16),
        hex_char(((v >> 8u16) & 0xFu16) as u16),
        hex_char(((v >> 4u16) & 0xFu16) as u16),
        hex_char((v & 0xFu16) as u16),
    ]
}

fn digit(d: usize) -> (r: char)
    requires
        d < 10,
    ensures
        r == digit_char(d as nat),
{
    let code = (d as u32) + 48;
    crate::text::char_from_ascii(code)
}

/// The decimal digits of `n`.
pub fn decimal_digits(n: usize) -> (r: Vec<char>)
    ensures
        r@ == decimal_text(n as nat),
    decreases n,
{
    if n < 10 {
        let mut r: Vec<char> = Vec::new();
        r.push(digit(n));
        r
    } else {
        let mut r = decimal_digits(n / 10);
        r.push(digit(n % 10));
        r
    }
}

/// `n` zero padded to at least two digits.
pub fn two_digits(n: usize) -> (r: Vec<char>)
    ensures
        r@ == pad2(n as nat),
{
    if n < 10 {
        let mut r: Vec<char> = Vec::new();
        r.push('0');
        r.push(digit(n));
        r
    } else {
        decimal_digits(n)
    }
}

fn hex_digit(d: u16) -> (r: char)
    requires
        d < 16,
    ensures
        r == hex_char(d),
{
    if d < 10 {
        crate::text::char_from_ascii((d as u32) + 48)
    } else {
        crate::text::char_from_ascii((d as u32) + 55)
    }
}

/// Four uppercase hexadecimal digits of `v`.
pub fn hex4_digits(v: u16) -> (r: Vec<char>)
    ensures
        r@ == hex4(v),
{
    let a = (v >> 12u16) & 0xF;
    let b = (v >> 8u16) & 0xF;
    let c = (v >> 4u16) & 0xF;
    let d = v & 0xF;
    assert(a < 16 && b < 16 && c < 16 && d < 16) by (bit_vector)
        requires
            a == (v >> 12u16) & 0xF,
            b == (v >> 8u16) & 0xF,
            c == (v >> 4u16) & 0xF,
            d == v & 0xF,
    ;
    let mut r: Vec<char> = Vec::new();
    r.push(hex_digit(a));
    r.push(hex_digit(b));
    r.push(hex_digit(c));
    r.push(hex_digit(d));
    assert(r@ =~= hex4(v));
    r
}

/// One TLV object: two-character id, zero-padded length, value.
pub open spec fn tlv_of(id: Seq<char>, value: Seq<char>) -> Seq<char> {
    id + pad2(value.len()) + value
}

/// Append `src` to `dst`.
pub fn append_chars(dst: &mut Vec<char>, src: &Vec<char>)
    ensures
        final(dst)@ == old(dst)@ + src@,
{
    let mut i: usize = 0;
    let ghost start = dst@;
    while i < src.len()
        invariant
            i <= src.len(),
            dst@ == start + src@.subrange(0, i as int),
        decreases src.len() - i,
    {
        dst.push(src[i]);
        proof {
            assert(src@.subrange(0, i + 1) =~= src@.subrange(0, i as int).push(src@[i as int]));
        }
        i = i + 1;
    }
    proof {
        assert(src@.subrange(0, src.len() as int) =~= src@);
    }
}

/// The TLV object with id `a b` and value `value`.
pub fn tlv_chars(a: char, b: char, value: &Vec<char>) -> (r: Vec<char>)
    ensures
        r@ == tlv_of(seq![a, b], value@),
{
    let mut r: Vec<char> = Vec::new();
    r.push(a);
    r.push(b);
    let len = two_digits(value.len());
    append_chars(&mut r, &len);
    append_chars(&mut r, value);
    assert(r@ =~= tlv_of(seq![a, b], value@));
    r
}

/// One EMV TLV object: two-digit id, two-digit length, value.
pub fn tlv(id: &str, value: &str) -> (r: String)
    ensures
        r@ == tlv_of(id@, value@),
{
    let mut r = chars_of(id);
    let v = chars_of(value);
    let len = two_digits(v.len());
    append_chars(&mut r, &len);
    append_chars(&mut r, &v);
    string_of(&r)
}

// ---------------------------------------------------------------------------
// Currency map
// ---------------------------------------------------------------------------

/// ISO-4217 alpha code to EMV numeric code, for the currencies the
/// merchant-presented flow supports.
pub open spec fn currency_table(a: char, b: char, c: char) -> Option<(char, char, char)> {
    match (a, b, c) {
        ('A', 'U', 'D') => Some(('0', '3', '6')),
        ('B', 'G', 'N') => Some(('9', '7', '5')),
        ('B', 'H', 'D') => Some(('0', '4', '8')),
        ('B', 'N', 'D') => Some(('0', '9', '6')),
        ('B', 'R', 'L') => Some(('9', '8', '6')),
        ('C', 'A', 'D') => Some(('1', '2', '4')),
        ('C', 'H', 'F') => Some(('7', '5', '6')),
        ('C', 'L', 'P') => Some(('1', '5', '2')),
        ('C', 'N', 'Y') => Some(('1', '5', '6')),
        ('C', 'Z', 'K') => Some(('2', '0', '3')),
        ('D', 'K', 'K') => Some(('2', '0', '8')),
        ('E', 'U', 'R') => Some(('9', '7', '8')),
        ('G', 'B', 'P') => Some(('8', '2', '6')),
        ('H', 'K', 'D') => Some(('3', '4', '4')),
        ('H', 'R', 'K') => Some(('1', '9', '1')),
        ('H', 'U', 'F') => Some(('3', '4', '8')),
        ('I', 'D', 'R') => Some(('3', '6', '0')),
        ('I', 'L', 'S') => Some(('3', '7', '6')),
        ('I', 'N', 'R') => Some(('3', '5', '6')),
        ('I', 'S', 'K') => Some(('3', '5', '2')),
        ('J', 'P', 'Y') => Some(('3', '9', '2')),
        ('K', 'R', 'W') => Some(('4', '1', '0')),
        ('K', 'W', 'D') => Some(('4', '1', '4')),
        ('K', 'Z', 'T') => Some(('3', '9', '8')),
        ('L', 'A', 'K') => Some(('4', '1', '8')),
        ('L', 'K', 'R') => Some(('1', '4', '4')),
        ('M', 'A', 'D') => Some(('5', '0', '4')),
        ('M', 'D', 'L') => Some(('4', '9', '8')),
        ('M', 'M', 'K') => Some(('1', '0', '4')),
        ('M', 'O', 'P') => Some(('4', '4', '6')),
        ('M', 'X', 'N') => Some(('4', '8', '4')),
        ('M', 'Y', 'R') => Some(('4', '5', '8')),
        ('N', 'O', 'K') => Some(('5', '7', '8')),
        ('N', 'P', 'R') => Some(('5', '2', '4')),
        ('N', 'Z', 'D') => Some(('5', '5', '4')),
        ('O', 'M', 'R') => Some(('5', '1', '2')),
        ('P', 'H', 'P') => Some(('6', '0', '8')),
        ('P', 'L', 'N') => Some(('9', '8', '5')),
        ('Q', 'A', 'R') => Some(('6', '3', '4')),
        ('R', 'O', 'N') => Some(('9', '4', '6')),
        ('R', 'U', 'B') => Some(('6', '4', '3')),
        ('S', 'A', 'R') => Some(('6', '8', '2')),
        ('S', 'E', 'K') => Some(('7', '5', '2')),
        ('S', 'G', 'D') => Some(('7', '0', '2')),
        ('T', 'H', 'B') => Some(('7', '6', '4')),
        ('T', 'N', 'D') => Some(('7', '8', '8')),
        ('T', 'R', 'Y') => Some(('9', '4', '9')),
        ('T', 'W', 'D') => Some(('9', '0', '1')),
        ('U', 'A', 'H') => Some(('9', '8', '0')),
        ('U', 'S', 'D') => Some(('8', '4', '0')),
        ('V', 'N', 'D') => Some(('7', '0', '4')),
        ('Z', 'A', 'R') => Some(('7', '1', '0')),
        _ => None,
    }
}

/// The alpha code of a numeric code of the map: the map read backwards.
pub open spec fn currency_alpha_of(a: char, b: char, c: char) -> Option<(char, char, char)> {
    match (a, b, c) {
        ('0', '3', '6') => Some(('A', 'U', 'D')),
        ('9', '7', '5') => Some(('B', 'G', 'N')),
        ('0', '4', '8') => Some(('B', 'H', 'D')),
        ('0', '9', '6') => Some(('B', 'N', 'D')),
        ('9', '8', '6') => Some(('B', 'R', 'L')),
        ('1', '2', '4') => Some(('C', 'A', 'D')),
        ('7', '5', '6') => Some(('C', 'H', 'F')),
        ('1', '5', '2') => Some(('C', 'L', 'P')),
        ('1', '5', '6') => Some(('C', 'N', 'Y')),
        ('2', '0', '3') => Some(('C', 'Z', 'K')),
        ('2', '0', '8') => Some(('D', 'K', 'K')),
        ('9', '7', '8') => Some(('E', 'U', 'R')),
        ('8', '2', '6') => Some(('G', 'B', 'P')),
        ('3', '4', '4') => Some(('H', 'K', 'D')),
        ('1', '9', '1') => Some(('H', 'R', 'K')),
        ('3', '4', '8') => Some(('H', 'U', 'F')),
        ('3', '6', '0') => Some(('I', 'D', 'R')),
        ('3', '7', '6') => Some(('I', 'L', 'S')),
        ('3', '5', '6') => Some(('I', 'N', 'R')),
        ('3', '5', '2') => Some(('I', 'S', 'K')),
        ('3', '9', '2') => Some(('J', 'P', 'Y')),
        ('4', '1', '0') => Some(('K', 'R', 'W')),
        ('4', '1', '4') => Some(('K', 'W', 'D')),
        ('3', '9', '8') => Some(('K', 'Z', 'T')),
        ('4', '1', '8') => Some(('L', 'A', 'K')),
        ('1', '4', '4') => Some(('L', 'K', 'R')),
        ('5', '0', '4') => Some(('M', 'A', 'D')),
        ('4', '9', '8') => Some(('M', 'D', 'L')),
        ('1', '0', '4') => Some(('M', 'M', 'K')),
        ('4', '4', '6') => Some(('M', 'O', 'P')),
        ('4', '8', '4') => Some(('M', 'X', 'N')),
        ('4', '5', '8') => Some(('M', 'Y', 'R')),
        ('5', '7', '8') => Some(('N', 'O', 'K')),
        ('5', '2', '4') => Some(('N', 'P', 'R')),
        ('5', '5', '4') => Some(('N', 'Z', 'D')),
        ('5', '1', '2') => Some(('O', 'M', 'R')),
        ('6', '0', '8') => Some(('P', 'H', 'P')),
        ('9', '8', '5') => Some(('P', 'L', 'N')),
        ('6', '3', '4') => Some(('Q', 'A', 'R')),
        ('9', '4', '6') => Some(('R', 'O', 'N')),
        ('6', '4', '3') => Some(('R', 'U', 'B')),
        ('6', '8', '2') => Some(('S', 'A', 'R')),
        ('7', '5', '2') => Some(('S', 'E', 'K')),
        ('7', '0', '2') => Some(('S', 'G', 'D')),
        ('7', '6', '4') => Some(('T', 'H', 'B')),
        ('7', '8', '8') => Some(('T', 'N', 'D')),
        ('9', '4', '9') => Some(('T', 'R', 'Y')),
        ('9', '0', '1') => Some(('T', 'W', 'D')),
        ('9', '8', '0') => Some(('U', 'A', 'H')),
        ('8', '4', '0') => Some(('U', 'S', 'D')),
        ('7', '0', '4') => Some(('V', 'N', 'D')),
        ('7', '1', '0') => Some(('Z', 'A', 'R')),
        _ => None,
    }
}

proof fn lemma_currency_table_inverse(a: char, b: char, c: char)
    ensures
        currency_table(a, b, c) matches Some((x, y, z)) ==> currency_alpha_of(x, y, z) == Some((a, b, c))
            && is_ascii_digit(x) && is_ascii_digit(y) && is_ascii_digit(z),
{
}

proof fn lemma_upper_keeps_ws(c: char)
    ensures
        is_ws(ascii_upper(c)) == is_ws(c),
        ascii_upper(ascii_upper(c)) == ascii_upper(c),
{
}

/// The currency map. Normalizing a code twice is normalizing it once, so a
/// code and its normalized form look up the same; every numeric code it gives
/// is three ASCII digits; and distinct alpha codes give distinct numeric codes.
pub proof fn lemma_currency_map(x: Seq<char>, y: Seq<char>)
    ensures
        normalized_currency(normalized_currency(x)) == normalized_currency(x),
        currency_code(normalized_currency(x)) matches Some(n) ==> n.len() == 3 && forall|i: int|
            0 <= i < 3 ==> is_ascii_digit(#[trigger] n[i]),
        currency_code(x) is Some && currency_code(x) == currency_code(y) ==> x == y,
{
    let t = trim(x);
    let u = normalized_currency(x);
    let p = |c: char| true;
    lemma_trim_keeps(x, p);
    assert(u.len() == t.len());
    if u.len() > 0 {
        lemma_upper_keeps_ws(t[0]);
        lemma_upper_keeps_ws(t.last());
        assert(u[0] == ascii_upper(t[0]));
        assert(u.last() == ascii_upper(t.last()));
    }
    lemma_trim_fixed(u);
    assert(u.map_values(|c: char| ascii_upper(c)) =~= u) by {
        assert forall|i: int| 0 <= i < u.len() implies #[trigger] ascii_upper(u[i]) == u[i] by {
            lemma_upper_keeps_ws(t[i]);
        }
    }
    let v = normalized_currency(u);
    assert(trim(u) == u);
    assert(v =~= u.map_values(|c: char| ascii_upper(c)));
    if u.len() == 3 {
        lemma_currency_table_inverse(u[0], u[1], u[2]);
        if let Some(n) = currency_code(u) {
            assert(n[0] == currency_table(u[0], u[1], u[2]).unwrap().0);
        }
    }
    if x.len() == 3 && y.len() == 3 {
        lemma_currency_table_inverse(x[0], x[1], x[2]);
        lemma_currency_table_inverse(y[0], y[1], y[2]);
        if currency_code(x) is Some && currency_code(x) == currency_code(y) {
            let n = currency_code(x).unwrap();
            assert(n == seq![n[0], n[1], n[2]]);
            assert(x =~= y);
        }
    }
}

/// The numeric code of an already normalized alpha code.
pub open spec fn currency_code(code: Seq<char>) -> Option<Seq<char>> {
    if code.len() == 3 {
        match currency_table(code[0], code[1], code[2]) {
            Some((x, y, z)) => Some(seq![x, y, z]),
            None => None,
        }
    } else {
        None
    }
}

/// The alpha code as looked up: trimmed and ASCII-uppercased.
pub open spec fn normalized_currency(alpha: Seq<char>) -> Seq<char> {
    trim(alpha).map_values(|c: char| ascii_upper(c))
}

fn currency_lookup(a: char, b: char, c: char) -> (r: Option<&'static str>)
    ensures
        match r {
            Some(s) => currency_table(a, b, c) matches Some((x, y, z)) && s@ == seq![x, y, z],
            None => currency_table(a, b, c) is None,
        },
{
    let s = match (a, b, c) {
        ('A', 'U', 'D') => {
            proof {
                reveal_strlit("036");
            }
            "036"
        }
        ('B', 'G', 'N') => {
            proof {
                reveal_strlit("975");
            }
            "975"
        }
        ('B', 'H', 'D') => {
            proof {
                reveal_strlit("048");
            }
            "048"
        }
        ('B', 'N', 'D') => {
            proof {
                reveal_strlit("096");
            }
            "096"
        }
        ('B', 'R', 'L') => {
            proof {
                reveal_strlit("986");
            }
            "986"
        }
        ('C', 'A', 'D') => {
            proof {
                reveal_strlit("124");
            }
            "124"
        }
        ('C', 'H', 'F') => {
            proof {
                reveal_strlit("756");
            }
            "756"
        }
        ('C', 'L', 'P') => {
            proof {
                reveal_strlit("152");
            }
            "152"
        }
        ('C', 'N', 'Y') => {
            proof {
                reveal_strlit("156");
            }
            "156"
        }
        ('C', 'Z', 'K') => {
            proof {
                reveal_strlit("203");
            }
            "203"
        }
        ('D', 'K', 'K') => {
            proof {
                reveal_strlit("208");
            }
            "208"
        }
        ('E', 'U', 'R') => {
            proof {
                reveal_strlit("978");
            }
            "978"
        }
        ('G', 'B', 'P') => {
            proof {
                reveal_strlit("826");
            }
            "826"
        }
        ('H', 'K', 'D') => {
            proof {
                reveal_strlit("344");
            }
            "344"
        }
        ('H', 'R', 'K') => {
            proof {
                reveal_strlit("191");
            }
            "191"
        }
        ('H', 'U', 'F') => {
            proof {
                reveal_strlit("348");
            }
            "348"
        }
        ('I', 'D', 'R') => {
            proof {
                reveal_strlit("360");
            }
            "360"
        }
        ('I', 'L', 'S') => {
            proof {
                reveal_strlit("376");
            }
            "376"
        }
        ('I', 'N', 'R') => {
            proof {
                reveal_strlit("356");
            }
            "356"
        }
        ('I', 'S', 'K') => {
            proof {
                reveal_strlit("352");
            }
            "352"
        }
        ('J', 'P', 'Y') => {
            proof {
                reveal_strlit("392");
            }
            "392"
        }
        ('K', 'R', 'W') => {
            proof {
                reveal_strlit("410");
            }
            "410"
        }
        ('K', 'W', 'D') => {
            proof {
                reveal_strlit("414");
            }
            "414"
        }
        ('K', 'Z', 'T') => {
            proof {
                reveal_strlit("398");
            }
            "398"
        }
        ('L', 'A', 'K') => {
            proof {
                reveal_strlit("418");
            }
            "418"
        }
        ('L', 'K', 'R') => {
            proof {
                reveal_strlit("144");
            }
            "144"
        }
        ('M', 'A', 'D') => {
            proof {
                reveal_strlit("504");
            }
            "504"
        }
        ('M', 'D', 'L') => {
            proof {
                reveal_strlit("498");
            }
            "498"
        }
        ('M', 'M', 'K') => {
            proof {
                reveal_strlit("104");
            }
            "104"
        }
        ('M', 'O', 'P') => {
            proof {
                reveal_strlit("446");
            }
            "446"
        }
        ('M', 'X', 'N') => {
            proof {
                reveal_strlit("484");
            }
            "484"
        }
        ('M', 'Y', 'R') => {
            proof {
                reveal_strlit("458");
            }
            "458"
        }
        ('N', 'O', 'K') => {
            proof {
                reveal_strlit("578");
            }
            "578"
        }
        ('N', 'P', 'R') => {
            proof {
                reveal_strlit("524");
            }
            "524"
        }
        ('N', 'Z', 'D') => {
            proof {
                reveal_strlit("554");
            }
            "554"
        }
        ('O', 'M', 'R') => {
            proof {
                reveal_strlit("512");
            }
            "512"
        }
        ('P', 'H', 'P') => {
            proof {
                reveal_strlit("608");
            }
            "608"
        }
        ('P', 'L', 'N') => {
            proof {
                reveal_strlit("985");
            }
            "985"
        }
        ('Q', 'A', 'R') => {
            proof {
                reveal_strlit("634");
            }
            "634"
        }
        ('R', 'O', 'N') => {
            proof {
                reveal_strlit("946");
            }
            "946"
        }
        ('R', 'U', 'B') => {
            proof {
                reveal_strlit("643");
            }
            "643"
        }
        ('S', 'A', 'R') => {
            proof {
                reveal_strlit("682");
            }
            "682"
        }
        ('S', 'E', 'K') => {
            proof {
                reveal_strlit("752");
            }
            "752"
        }
        ('S', 'G', 'D') => {
            proof {
                reveal_strlit("702");
            }
            "702"
        }
        ('T', 'H', 'B') => {
            proof {
                reveal_strlit("764");
            }
            "764"
        }
        ('T', 'N', 'D') => {
            proof {
                reveal_strlit("788");
            }
            "788"
        }
        ('T', 'R', 'Y') => {
            proof {
                reveal_strlit("949");
            }
            "949"
        }
        ('T', 'W', 'D') => {
            proof {
                reveal_strlit("901");
            }
            "901"
        }
        ('U', 'A', 'H') => {
            proof {
                reveal_strlit("980");
            }
            "980"
        }
        ('U', 'S', 'D') => {
            proof {
                reveal_strlit("840");
            }
            "840"
        }
        ('V', 'N', 'D') => {
            proof {
                reveal_strlit("704");
            }
            "704"
        }
        ('Z', 'A', 'R') => {
            proof {
                reveal_strlit("710");
            }
            "710"
        }
        _ => {
            return None;
        }
    };
    Some(s)
}

/// ISO-4217 alpha to EMV numeric code; `None` outside the supported map.
pub fn currency_numeric(alpha: &str) -> (r: Option<&'static str>)
    ensures
        match r {
            Some(s) => currency_code(normalized_currency(alpha@)) == Some(s@),
            None => currency_code(normalized_currency(alpha@)) is None,
        },
{
    let raw = chars_of(alpha);
    let t = trim_chars(&raw);
    let code = to_ascii_uppercase(&t);
    if code.len() != 3 {
        return None;
    }
    let r = currency_lookup(code[0], code[1], code[2]);
    proof {
        if let Some(s) = r {
            let (x, y, z) = currency_table(code@[0], code@[1], code@[2]).unwrap();
            assert(s@ =~= seq![x, y, z]);
        }
    }
    r
}

// ---------------------------------------------------------------------------
// Profile, refusals, payload
// ---------------------------------------------------------------------------

/// The merchant-presented data the payload is built from.
#[derive(Debug, Clone)]
pub struct EmvMerchantProfile {
    /// Tag 59; folded and length-checked at build time.
    pub merchant_name: String,
    /// Tag 60; folded and length-checked at build time.
    pub merchant_city: String,
    /// Tag 58; ISO-3166 alpha-2.
    pub country: String,
    /// Tag 52; exactly 4 digits.
    pub mcc: String,
    /// Tag 26-00, the QRIS global unique identifier.
    pub gui: String,
    /// Tag 26-01: merchant PAN, national id, or "UME".
    pub merchant_identifier: String,
    /// Tag 01: "11" static or "12" dynamic.
    pub initiation: String,
}

/// Typed builder refusal; `code()` is the stable error string.
#[derive(Debug, PartialEq, Eq, Clone)]
pub enum EmvQrError {
    /// Merchant name empty or over 25 chars after folding (the folded length).
    MerchantNameTooLong(usize),
    /// Merchant city empty or over 15 chars after folding (the folded length).
    MerchantCityTooLong(usize),
    /// Country code is not 2 ASCII letters.
    InvalidCountry(String),
    /// Merchant category code is not exactly 4 digits.
    InvalidMcc(String),
    /// Point of initiation is not "11" or "12".
    InvalidInitiation(String),
    /// GUI or merchant identifier empty, overlong or not printable ASCII.
    InvalidMerchantAccount(String),
    /// Currency alpha code outside the supported map.
    CurrencyNotSupported(String),
    /// Amount is zero or negative.
    InvalidAmount,
    /// Amount text exceeds 13 characters.
    AmountTooLong,
    /// Reference over 25 chars after folding (the folded length).
    ReferenceTooLong(usize),
}

impl EmvQrError {
    pub open spec fn code_text(&self) -> Seq<char> {
        match self {
            EmvQrError::MerchantNameTooLong(..) => "merchant_name_too_long"@,
            EmvQrError::MerchantCityTooLong(..) => "merchant_city_too_long"@,
            EmvQrError::InvalidCountry(..) => "invalid_country_code"@,
            EmvQrError::InvalidMcc(..) => "invalid_mcc"@,
            EmvQrError::InvalidInitiation(..) => "invalid_initiation_method"@,
            EmvQrError::InvalidMerchantAccount(..) => "invalid_merchant_account"@,
            EmvQrError::CurrencyNotSupported(..) => "currency_not_supported"@,
            EmvQrError::InvalidAmount => "invalid_amount"@,
            EmvQrError::AmountTooLong => "amount_too_long"@,
            EmvQrError::ReferenceTooLong(..) => "reference_too_long"@,
        }
    }

    /// The stable error string.
    pub fn code(&self) -> (r: &'static str)
        ensures
            r@ == self.code_text(),
    {
        match self {
            EmvQrError::MerchantNameTooLong(..) => {
                proof {
                    reveal_strlit("merchant_name_too_long");
                }
                "merchant_name_too_long"
            }
            EmvQrError::MerchantCityTooLong(..) => {
                proof {
                    reveal_strlit("merchant_city_too_long");
                }
                "merchant_city_too_long"
            }
            EmvQrError::InvalidCountry(..) => {
                proof {
                    reveal_strlit("invalid_country_code");
                }
                "invalid_country_code"
            }
            EmvQrError::InvalidMcc(..) => {
                proof {
                    reveal_strlit("invalid_mcc");
                }
                "invalid_mcc"
            }
            EmvQrError::InvalidInitiation(..) => {
                proof {
                    reveal_strlit("invalid_initiation_method");
                }
                "invalid_initiation_method"
            }
            EmvQrError::InvalidMerchantAccount(..) => {
                proof {
                    reveal_strlit("invalid_merchant_account");
                }
                "invalid_merchant_account"
            }
            EmvQrError::CurrencyNotSupported(..) => {
                proof {
                    reveal_strlit("currency_not_supported");
                }
                "currency_not_supported"
            }
            EmvQrError::InvalidAmount => {
                proof {
                    reveal_strlit("invalid_amount");
                }
                "invalid_amount"
            }
            EmvQrError::AmountTooLong => {
                proof {
                    reveal_strlit("amount_too_long");
                }
                "amount_too_long"
            }
            EmvQrError::ReferenceTooLong(..) => {
                proof {
                    reveal_strlit("reference_too_long");
                }
                "reference_too_long"
            }
        }
    }
}

pub open spec fn is_ascii_alpha(c: char) -> bool {
    ('A' <= c <= 'Z') || ('a' <= c <= 'z')
}

pub open spec fn is_ascii_digit(c: char) -> bool {
    '0' <= c <= '9'
}

pub open spec fn country_text(p: EmvMerchantProfile) -> Seq<char> {
    trim(p.country@).map_values(|c: char| ascii_upper(c))
}

pub open spec fn name_ok(n: Seq<char>, limit: nat) -> bool {
    0 < n.len() <= limit
}

pub open spec fn account_field_ok(s: Seq<char>) -> bool {
    &&& 0 < s.len() <= 32
    &&& forall|i: int| 0 <= i < s.len() ==> printable_ascii(#[trigger] s[i])
}

pub open spec fn country_ok(c: Seq<char>) -> bool {
    &&& c.len() == 2
    &&& forall|i: int| 0 <= i < c.len() ==> is_ascii_alpha(#[trigger] c[i])
}

pub open spec fn mcc_ok(m: Seq<char>) -> bool {
    &&& m.len() == 4
    &&& forall|i: int| 0 <= i < m.len() ==> is_ascii_digit(#[trigger] m[i])
}

pub open spec fn initiation_ok(i: Seq<char>) -> bool {
    i == seq!['1', '1'] || i == seq!['1', '2']
}

/// The folded reference, empty when there is none.
pub open spec fn reference_text(reference: Option<Seq<char>>) -> Seq<char> {
    match reference {
        Some(r) => fold_text(r),
        None => seq![],
    }
}

/// Which check refuses the build, in the order they run: 0 when none does;
/// 1 name, 2 city, 3 country, 4 mcc, 5 initiation, 6 merchant account,
/// 7 currency, 8 non-positive amount, 9 amount text length, 10 reference.
pub open spec fn emv_refusal(
    p: EmvMerchantProfile,
    currency: Seq<char>,
    amount: Option<Amount>,
    reference: Option<Seq<char>>,
) -> nat {
    if !name_ok(fold_text(p.merchant_name@), 25) {
        1
    } else if !name_ok(fold_text(p.merchant_city@), 15) {
        2
    } else if !country_ok(country_text(p)) {
        3
    } else if !mcc_ok(trim(p.mcc@)) {
        4
    } else if !initiation_ok(trim(p.initiation@)) {
        5
    } else if !account_field_ok(trim(p.gui@)) || !account_field_ok(trim(p.merchant_identifier@)) {
        6
    } else if currency_code(normalized_currency(currency)) is None {
        7
    } else if amount matches Some(a) && a.mantissa <= 0 {
        8
    } else if amount matches Some(a) && decimal_fixed2_text(a.mantissa, a.scale).len() > 13 {
        9
    } else if reference_text(reference).len() > 25 {
        10
    } else {
        0
    }
}

/// The TLV objects before the checksum, from the normalized fields.
pub open spec fn body_of(
    initiation: Seq<char>,
    gui: Seq<char>,
    identifier: Seq<char>,
    mcc: Seq<char>,
    currency: Seq<char>,
    amount: Option<Seq<char>>,
    country: Seq<char>,
    name: Seq<char>,
    city: Seq<char>,
    reference: Seq<char>,
) -> Seq<char> {
    tlv_of(seq!['0', '0'], seq!['0', '1']) + tlv_of(seq!['0', '1'], initiation) + tlv_of(
        seq!['2', '6'],
        tlv_of(seq!['0', '0'], gui) + tlv_of(seq!['0', '1'], identifier),
    ) + tlv_of(seq!['5', '2'], mcc) + tlv_of(seq!['5', '3'], currency) + (match amount {
        Some(a) => tlv_of(seq!['5', '4'], a),
        None => seq![],
    }) + tlv_of(seq!['5', '8'], country) + tlv_of(seq!['5', '9'], name) + tlv_of(
        seq!['6', '0'],
        city,
    ) + (if reference.len() > 0 {
        tlv_of(seq!['6', '2'], tlv_of(seq!['0', '1'], reference))
    } else {
        seq![]
    })
}

/// The amount text of tag 54, when there is an amount.
pub open spec fn amount_text(amount: Option<Amount>) -> Option<Seq<char>> {
    match amount {
        Some(a) => Some(decimal_fixed2_text(a.mantissa, a.scale)),
        None => None,
    }
}

/// The TLV objects before the checksum, for inputs that pass every check.
pub open spec fn emv_body(
    p: EmvMerchantProfile,
    currency: Seq<char>,
    amount: Option<Amount>,
    reference: Option<Seq<char>>,
) -> Seq<char> {
    body_of(
        trim(p.initiation@),
        trim(p.gui@),
        trim(p.merchant_identifier@),
        trim(p.mcc@),
        currency_code(normalized_currency(currency)).unwrap(),
        amount_text(amount),
        country_text(p),
        fold_text(p.merchant_name@),
        fold_text(p.merchant_city@),
        reference_text(reference),
    )
}

/// A body closed by the checksum object: "6304" and the CRC of the UTF-8
/// bytes of everything before it, "6304" included, in four hex digits.
pub open spec fn with_crc(body: Seq<char>) -> Seq<char> {
    let head = body + seq!['6', '3', '0', '4'];
    head + hex4(crc16_of(vstd::utf8::encode_utf8(head)))
}

/// Every character is printable ASCII.
pub open spec fn printable_text(s: Seq<char>) -> bool {
    forall|i: int| 0 <= i < s.len() ==> printable_ascii(#[trigger] s[i])
}

proof fn lemma_printable_concat(a: Seq<char>, b: Seq<char>)
    requires
        printable_text(a),
        printable_text(b),
    ensures
        printable_text(a + b),
{
    assert forall|i: int| 0 <= i < (a + b).len() implies printable_ascii(#[trigger] (a + b)[i]) by {
        if i < a.len() {
            assert((a + b)[i] == a[i]);
        } else {
            assert((a + b)[i] == b[i - a.len()]);
        }
    }
}

proof fn lemma_decimal_text_printable(n: nat)
    ensures
        printable_text(decimal_text(n)),
    decreases n,
{
    if n >= 10 {
        lemma_decimal_text_printable(n / 10);
        let t = decimal_text(n / 10);
        assert forall|i: int| 0 <= i < t.push(digit_char(n % 10)).len() implies printable_ascii(
            #[trigger] t.push(digit_char(n % 10))[i],
        ) by {
            if i < t.len() {
                assert(t.push(digit_char(n % 10))[i] == t[i]);
            }
        }
    }
}

proof fn lemma_tlv_printable(id: Seq<char>, value: Seq<char>)
    requires
        printable_text(id),
        printable_text(value),
    ensures
        printable_text(tlv_of(id, value)),
{
    let n = value.len();
    if n >= 10 {
        lemma_decimal_text_printable(n);
    }
    assert(printable_text(pad2(n)));
    lemma_printable_concat(id, pad2(n));
    lemma_printable_concat(id + pad2(n), value);
}

proof fn lemma_hex4_printable(v: u16)
    ensures
        printable_text(hex4(v)),
{
    assert(((v >> 12u16) & 0xFu16) < 16 && ((v >> 8u16) & 0xFu16) < 16 && ((v >> 4u16) & 0xFu16) < 16 && (v
        & 0xFu16) < 16) by (bit_vector);
}

proof fn lemma_fold_text_printable(s: Seq<char>)
    ensures
        printable_text(fold_text(s)),
{
    let p = |c: char| printable_ascii(c);
    lemma_fold_chars_printable_out(trim(s));
    lemma_trim_keeps(fold_chars(trim(s)), p);
    let t = fold_text(s);
    assert forall|i: int| 0 <= i < t.len() implies printable_ascii(#[trigger] t[i]) by {
        assert(p(t[i]));
    }
}

proof fn lemma_currency_printable(code: Seq<char>)
    ensures
        currency_code(code) matches Some(n) ==> printable_text(n),
{
}

/// The objects of a body are printable when its fields are.
proof fn lemma_body_printable(
    initiation: Seq<char>,
    gui: Seq<char>,
    identifier: Seq<char>,
    mcc: Seq<char>,
    currency: Seq<char>,
    amount: Option<Seq<char>>,
    country: Seq<char>,
    name: Seq<char>,
    city: Seq<char>,
    reference: Seq<char>,
)
    requires
        printable_text(initiation),
        printable_text(gui),
        printable_text(identifier),
        printable_text(mcc),
        printable_text(currency),
        amount matches Some(a) ==> printable_text(a),
        printable_text(country),
        printable_text(name),
        printable_text(city),
        printable_text(reference),
    ensures
        printable_text(body_of(initiation, gui, identifier, mcc, currency, amount, country, name, city, reference)),
{
    let e: Seq<char> = seq![];
    assert(printable_text(e));
    assert(printable_text(seq!['0', '0']));
    assert(printable_text(seq!['0', '1']));
    assert(printable_text(seq!['2', '6']));
    assert(printable_text(seq!['5', '2']));
    assert(printable_text(seq!['5', '3']));
    assert(printable_text(seq!['5', '4']));
    assert(printable_text(seq!['5', '8']));
    assert(printable_text(seq!['5', '9']));
    assert(printable_text(seq!['6', '0']));
    assert(printable_text(seq!['6', '2']));
    let t0 = tlv_of(seq!['0', '0'], seq!['0', '1']);
    let t1 = tlv_of(seq!['0', '1'], initiation);
    lemma_tlv_printable(seq!['0', '0'], gui);
    lemma_tlv_printable(seq!['0', '1'], identifier);
    let acct = tlv_of(seq!['0', '0'], gui) + tlv_of(seq!['0', '1'], identifier);
    lemma_printable_concat(tlv_of(seq!['0', '0'], gui), tlv_of(seq!['0', '1'], identifier));
    let t26 = tlv_of(seq!['2', '6'], acct);
    let t52 = tlv_of(seq!['5', '2'], mcc);
    let t53 = tlv_of(seq!['5', '3'], currency);
    let t54 = match amount {
        Some(a) => tlv_of(seq!['5', '4'], a),
        None => seq![],
    };
    let t58 = tlv_of(seq!['5', '8'], country);
    let t59 = tlv_of(seq!['5', '9'], name);
    let t60 = tlv_of(seq!['6', '0'], city);
    let t62 = if reference.len() > 0 {
        tlv_of(seq!['6', '2'], tlv_of(seq!['0', '1'], reference))
    } else {
        seq![]
    };
    lemma_tlv_printable(seq!['0', '0'], seq!['0', '1']);
    lemma_tlv_printable(seq!['0', '1'], initiation);
    lemma_tlv_printable(seq!['2', '6'], acct);
    lemma_tlv_printable(seq!['5', '2'], mcc);
    lemma_tlv_printable(seq!['5', '3'], currency);
    if let Some(a) = amount {
        lemma_tlv_printable(seq!['5', '4'], a);
    }
    lemma_tlv_printable(seq!['5', '8'], country);
    lemma_tlv_printable(seq!['5', '9'], name);
    lemma_tlv_printable(seq!['6', '0'], city);
    if reference.len() > 0 {
        lemma_tlv_printable(seq!['0', '1'], reference);
        lemma_tlv_printable(seq!['6', '2'], tlv_of(seq!['0', '1'], reference));
    }
    lemma_printable_concat(t0, t1);
    lemma_printable_concat(t0 + t1, t26);
    lemma_printable_concat(t0 + t1 + t26, t52);
    lemma_printable_concat(t0 + t1 + t26 + t52, t53);
    lemma_printable_concat(t0 + t1 + t26 + t52 + t53, t54);
    lemma_printable_concat(t0 + t1 + t26 + t52 + t53 + t54, t58);
    lemma_printable_concat(t0 + t1 + t26 + t52 + t53 + t54 + t58, t59);
    lemma_printable_concat(t0 + t1 + t26 + t52 + t53 + t54 + t58 + t59, t60);
    lemma_printable_concat(t0 + t1 + t26 + t52 + t53 + t54 + t58 + t59 + t60, t62);
}

/// The shape of a merchant-presented payload: it opens with the format
/// indicator object "000201", every character is printable ASCII (so each
/// object's length counts its bytes), and it closes with the checksum object
/// "6304" followed by the CRC-16/CCITT-FALSE, in four uppercase hex digits, of
/// the UTF-8 bytes of everything before those four digits.
pub open spec fn payload_shape(s: Seq<char>) -> bool {
    &&& s.len() >= 14
    &&& s.subrange(0, 6) == seq!['0', '0', '0', '2', '0', '1']
    &&& printable_text(s)
    &&& s.subrange(s.len() - 8, s.len() - 4) == seq!['6', '3', '0', '4']
    &&& s.subrange(s.len() - 4, s.len() as int) == hex4(
        crc16_of(vstd::utf8::encode_utf8(s.subrange(0, s.len() - 4))),
    )
}

/// Every payload the checks accept has the payload shape.
pub proof fn lemma_payload_shape(
    p: EmvMerchantProfile,
    currency: Seq<char>,
    amount: Option<Amount>,
    reference: Option<Seq<char>>,
)
    requires
        emv_refusal(p, currency, amount, reference) == 0,
        amount_plain(amount),
    ensures
        payload_shape(with_crc(emv_body(p, currency, amount, reference))),
{
    let init = trim(p.initiation@);
    assert(printable_text(init));
    assert(printable_text(trim(p.gui@)));
    assert(printable_text(trim(p.merchant_identifier@)));
    let mcc = trim(p.mcc@);
    assert forall|i: int| 0 <= i < mcc.len() implies printable_ascii(#[trigger] mcc[i]) by {
        assert(is_ascii_digit(mcc[i]));
    }
    lemma_currency_printable(normalized_currency(currency));
    let cur = currency_code(normalized_currency(currency)).unwrap();
    if let Some(a) = amount {
        let t = decimal_fixed2_text(a.mantissa, a.scale);
        assert forall|i: int| 0 <= i < t.len() implies printable_ascii(#[trigger] t[i]) by {
            assert(number_char(t[i]));
        }
    }
    let country = country_text(p);
    assert forall|i: int| 0 <= i < country.len() implies printable_ascii(#[trigger] country[i]) by {
        assert(is_ascii_alpha(country[i]));
    }
    lemma_fold_text_printable(p.merchant_name@);
    lemma_fold_text_printable(p.merchant_city@);
    match reference {
        Some(r) => lemma_fold_text_printable(r),
        None => {
            assert(printable_text(reference_text(reference)));
        },
    }
    lemma_body_printable(
        init,
        trim(p.gui@),
        trim(p.merchant_identifier@),
        mcc,
        cur,
        amount_text(amount),
        country,
        fold_text(p.merchant_name@),
        fold_text(p.merchant_city@),
        reference_text(reference),
    );
    let body = emv_body(p, currency, amount, reference);
    let head = body + seq!['6', '3', '0', '4'];
    let crc = hex4(crc16_of(vstd::utf8::encode_utf8(head)));
    let s = with_crc(body);
    assert(printable_text(seq!['6', '3', '0', '4']));
    lemma_printable_concat(body, seq!['6', '3', '0', '4']);
    lemma_hex4_printable(crc16_of(vstd::utf8::encode_utf8(head)));
    lemma_printable_concat(head, crc);
    let t0 = tlv_of(seq!['0', '0'], seq!['0', '1']);
    assert(pad2(2) == seq!['0', '2']);
    assert(t0 =~= seq!['0', '0', '0', '2', '0', '1']);
    assert(body.len() >= 6);
    assert(body.subrange(0, 6) =~= t0);
    assert(s.subrange(0, 6) =~= body.subrange(0, 6));
    assert(s.subrange(s.len() - 8, s.len() - 4) =~= seq!['6', '3', '0', '4']);
    assert(s.subrange(0, s.len() - 4) =~= head);
    assert(s.subrange(s.len() - 4, s.len() as int) =~= crc);
}

proof fn lemma_decimal_text_digits(n: nat)
    ensures
        forall|i: int| 0 <= i < decimal_text(n).len() ==> is_ascii_digit(#[trigger] decimal_text(n)[i]),
    decreases n,
{
    if n >= 10 {
        lemma_decimal_text_digits(n / 10);
        let t = decimal_text(n / 10);
        assert forall|i: int| 0 <= i < t.push(digit_char(n % 10)).len() implies is_ascii_digit(
            #[trigger] t.push(digit_char(n % 10))[i],
        ) by {
            if i < t.len() {
                assert(t.push(digit_char(n % 10))[i] == t[i]);
            }
        }
    }
}

/// The amount text is written with digits, "." and "-" only.
proof fn lemma_fixed2_text_plain(m: i128, s: u32)
    ensures
        forall|i: int| 0 <= i < decimal_fixed2_text(m, s).len() ==> number_char(
            #[trigger] decimal_fixed2_text(m, s)[i],
        ),
{
    let a = if m < 0 { -m } else { m as int };
    lemma_pow10_positive(s as nat);
    let p = pow10(s as nat);
    let w = decimal_text((a / p) as nat);
    let f = ((a * 100 / p) % 100) as nat;
    lemma_decimal_text_digits((a / p) as nat);
    lemma_decimal_text_digits(f);
    let sign: Seq<char> = if m < 0 {
        seq!['-']
    } else {
        Seq::<char>::empty()
    };
    let t = sign + w + seq!['.'] + pad2(f);
    assert(t == decimal_fixed2_text(m, s));
    assert forall|i: int| 0 <= i < t.len() implies number_char(#[trigger] t[i]) by {
        if i < sign.len() {
            assert(t[i] == sign[i]);
        } else if i < sign.len() + w.len() {
            assert(t[i] == w[i - sign.len()]);
        } else if i == sign.len() + w.len() {
            assert(t[i] == '.');
        } else {
            assert(t[i] == pad2(f)[i - sign.len() - w.len() - 1]);
        }
    }
}

/// The amount text, when there is one, is written with digits, "." and "-"
/// only.
pub open spec fn amount_plain(amount: Option<Amount>) -> bool {
    amount matches Some(a) ==> forall|i: int|
        0 <= i < decimal_fixed2_text(a.mantissa, a.scale).len() ==> number_char(
            #[trigger] decimal_fixed2_text(a.mantissa, a.scale)[i],
        )
}

/// Format the transaction amount (tag 54): two fractional digits, "."
/// separator, at most 13 characters.
pub fn format_amount(amount: Amount) -> (r: Result<String, EmvQrError>)
    requires
        amount.wf(),
    ensures
        amount.mantissa <= 0 ==> r == Err::<String, EmvQrError>(EmvQrError::InvalidAmount),
        amount.mantissa > 0 && decimal_fixed2_text(amount.mantissa, amount.scale).len() > 13 ==> r
            == Err::<String, EmvQrError>(EmvQrError::AmountTooLong),
        amount.mantissa > 0 && decimal_fixed2_text(amount.mantissa, amount.scale).len() <= 13 ==> (r
            matches Ok(s) && s@ == decimal_fixed2_text(amount.mantissa, amount.scale)),
        r matches Ok(s) ==> forall|i: int| 0 <= i < s@.len() ==> number_char(#[trigger] s@[i]),
{
    proof {
        lemma_fixed2_text_plain(amount.mantissa, amount.scale);
    }
    if !amount.is_positive() {
        return Err(EmvQrError::InvalidAmount);
    }
    let s = fixed2_text(amount);
    let n = chars_of(s.as_str()).len();
    if n > MAX_AMOUNT_LEN {
        return Err(EmvQrError::AmountTooLong);
    }
    Ok(s)
}

fn all_in(s: &Vec<char>, lo: char, hi: char, lo2: char, hi2: char) -> (r: bool)
    ensures
        r == forall|i: int| 0 <= i < s@.len() ==> ((lo <= #[trigger] s@[i] <= hi) || (lo2 <= s@[i] <= hi2)),
{
    let mut i: usize = 0;
    while i < s.len()
        invariant
            i <= s.len(),
            forall|k: int| 0 <= k < i ==> ((lo <= #[trigger] s@[k] <= hi) || (lo2 <= s@[k] <= hi2)),
        decreases s.len() - i,
    {
        let c = s[i];
        if !((lo <= c && c <= hi) || (lo2 <= c && c <= hi2)) {
            return false;
        }
        i = i + 1;
    }
    true
}

fn account_field_check(s: &Vec<char>) -> (r: bool)
    ensures
        r == account_field_ok(s@),
{
    if s.len() == 0 || s.len() > 32 {
        return false;
    }
    let mut i: usize = 0;
    while i < s.len()
        invariant
            i <= s.len(),
            forall|k: int| 0 <= k < i ==> printable_ascii(#[trigger] s@[k]),
        decreases s.len() - i,
    {
        if !is_printable_ascii(s[i]) {
            return false;
        }
        i = i + 1;
    }
    true
}

/// The normalized fields of a payload that passed every check.
pub struct EmvFields {
    pub initiation: Vec<char>,
    pub gui: Vec<char>,
    pub identifier: Vec<char>,
    pub mcc: Vec<char>,
    pub currency: Vec<char>,
    pub amount: Option<Vec<char>>,
    pub country: Vec<char>,
    pub name: Vec<char>,
    pub city: Vec<char>,
    pub reference: Vec<char>,
}

impl EmvFields {
    pub open spec fn body(&self) -> Seq<char> {
        body_of(
            self.initiation@,
            self.gui@,
            self.identifier@,
            self.mcc@,
            self.currency@,
            match self.amount {
                Some(a) => Some(a@),
                None => None,
            },
            self.country@,
            self.name@,
            self.city@,
            self.reference@,
        )
    }
}

/// The message of a refused GUI or merchant identifier.
pub open spec fn merchant_account_message() -> Seq<char> {
    "gui and merchant_identifier must each be 1..=32 printable-ASCII chars"@
}

/// Run the checks of the builder, in order, and return the normalized fields.
fn emv_fields(
    profile: &EmvMerchantProfile,
    currency_alpha: &str,
    amount: Option<Amount>,
    reference: Option<&str>,
) -> (r: Result<EmvFields, EmvQrError>)
    requires
        amount matches Some(a) ==> a.wf(),
    ensures
        ({
            let stage = emv_refusal(*profile, currency_alpha@, amount, opt_view(reference));
            &&& (stage == 0) == (r is Ok)
            &&& stage == 1 ==> r == Err::<EmvFields, EmvQrError>(
                EmvQrError::MerchantNameTooLong(fold_text(profile.merchant_name@).len() as usize),
            )
            &&& stage == 2 ==> r == Err::<EmvFields, EmvQrError>(
                EmvQrError::MerchantCityTooLong(fold_text(profile.merchant_city@).len() as usize),
            )
            &&& stage == 3 ==> (r matches Err(EmvQrError::InvalidCountry(c)) && c@ == profile.country@)
            &&& stage == 4 ==> (r matches Err(EmvQrError::InvalidMcc(m)) && m@ == profile.mcc@)
            &&& stage == 5 ==> (r matches Err(EmvQrError::InvalidInitiation(i)) && i@
                == profile.initiation@)
            &&& stage == 6 ==> (r matches Err(EmvQrError::InvalidMerchantAccount(m)) && m@
                == merchant_account_message())
            &&& stage == 7 ==> (r matches Err(EmvQrError::CurrencyNotSupported(c)) && c@
                == currency_alpha@)
            &&& stage == 8 ==> r == Err::<EmvFields, EmvQrError>(EmvQrError::InvalidAmount)
            &&& stage == 9 ==> r == Err::<EmvFields, EmvQrError>(EmvQrError::AmountTooLong)
            &&& stage == 10 ==> r == Err::<EmvFields, EmvQrError>(
                EmvQrError::ReferenceTooLong(reference_text(opt_view(reference)).len() as usize),
            )
            &&& r matches Ok(f) ==> f.body() == emv_body(
                *profile,
                currency_alpha@,
                amount,
                opt_view(reference),
            )
            &&& r is Ok ==> amount_plain(amount)
        }),
{
    let name_s = fold_alphanum(profile.merchant_name.as_str());
    let name = chars_of(name_s.as_str());
    if name.len() == 0 || name.len() > MAX_MERCHANT_NAME {
        return Err(EmvQrError::MerchantNameTooLong(name.len()));
    }
    let city_s = fold_alphanum(profile.merchant_city.as_str());
    let city = chars_of(city_s.as_str());
    if city.len() == 0 || city.len() > MAX_MERCHANT_CITY {
        return Err(EmvQrError::MerchantCityTooLong(city.len()));
    }
    let country_raw = chars_of(profile.country.as_str());
    let country_t = trim_chars(&country_raw);
    let country = to_ascii_uppercase(&country_t);
    if country.len() != 2 || !all_in(&country, 'A', 'Z', 'a', 'z') {
        return Err(EmvQrError::InvalidCountry(profile.country.clone()));
    }
    let mcc_raw = chars_of(profile.mcc.as_str());
    let mcc = trim_chars(&mcc_raw);
    if mcc.len() != 4 || !all_in(&mcc, '0', '9', '0', '9') {
        return Err(EmvQrError::InvalidMcc(profile.mcc.clone()));
    }
    let init_raw = chars_of(profile.initiation.as_str());
    let initiation = trim_chars(&init_raw);
    let init_ok = initiation.len() == 2 && initiation[0] == '1' && (initiation[1] == '1'
        || initiation[1] == '2');
    proof {
        if init_ok {
            assert(initiation@ =~= seq!['1', '1'] || initiation@ =~= seq!['1', '2']);
        }
    }
    if !init_ok {
        return Err(EmvQrError::InvalidInitiation(profile.initiation.clone()));
    }
    let gui_raw = chars_of(profile.gui.as_str());
    let gui = trim_chars(&gui_raw);
    let id_raw = chars_of(profile.merchant_identifier.as_str());
    let identifier = trim_chars(&id_raw);
    if !account_field_check(&gui) || !account_field_check(&identifier) {
        return Err(
            EmvQrError::InvalidMerchantAccount(
                crate::text::string_from(
                    "gui and merchant_identifier must each be 1..=32 printable-ASCII chars",
                ),
            ),
        );
    }
    let currency = match currency_numeric(currency_alpha) {
        Some(c) => chars_of(c),
        None => {
            return Err(EmvQrError::CurrencyNotSupported(crate::text::string_from(currency_alpha)));
        },
    };
    let amount_chars: Option<Vec<char>> = match amount {
        Some(a) => match format_amount(a) {
            Ok(s) => Some(chars_of(s.as_str())),
            Err(e) => {
                return Err(e);
            },
        },
        None => None,
    };
    let reference_folded: Vec<char> = match reference {
        Some(text) => {
            let f = fold_alphanum(text);
            chars_of(f.as_str())
        },
        None => Vec::new(),
    };
    if reference_folded.len() > MAX_REFERENCE {
        return Err(EmvQrError::ReferenceTooLong(reference_folded.len()));
    }
    let f = EmvFields {
        initiation,
        gui,
        identifier,
        mcc,
        currency,
        amount: amount_chars,
        country,
        name,
        city,
        reference: reference_folded,
    };
    proof {
        assert(f.reference@ =~= reference_text(opt_view(reference)));
    }
    Ok(f)
}

/// The TLV objects of the normalized fields.
fn assemble(f: &EmvFields) -> (r: Vec<char>)
    ensures
        r@ == f.body(),
{
    let mut payload: Vec<char> = Vec::new();
    let mut v01: Vec<char> = Vec::new();
    v01.push('0');
    v01.push('1');
    append_chars(&mut payload, &tlv_chars('0', '0', &v01));
    append_chars(&mut payload, &tlv_chars('0', '1', &f.initiation));
    let mut account = tlv_chars('0', '0', &f.gui);
    append_chars(&mut account, &tlv_chars('0', '1', &f.identifier));
    append_chars(&mut payload, &tlv_chars('2', '6', &account));
    append_chars(&mut payload, &tlv_chars('5', '2', &f.mcc));
    append_chars(&mut payload, &tlv_chars('5', '3', &f.currency));
    let ghost before_amount = payload@;
    match &f.amount {
        Some(a) => {
            append_chars(&mut payload, &tlv_chars('5', '4', a));
        },
        None => {},
    }
    append_chars(&mut payload, &tlv_chars('5', '8', &f.country));
    append_chars(&mut payload, &tlv_chars('5', '9', &f.name));
    append_chars(&mut payload, &tlv_chars('6', '0', &f.city));
    if f.reference.len() > 0 {
        let inner = tlv_chars('0', '1', &f.reference);
        append_chars(&mut payload, &tlv_chars('6', '2', &inner));
    }
    assert(v01@ =~= seq!['0', '1']);
    assert(payload@ =~= f.body());
    payload
}

/// Build the merchant-presented QR payload. `amount` of `None` renders a
/// static QR without tag 54; `reference` (tag 62-01) carries the invoice
/// number. Refusals come in the order of [`emv_refusal`].
#[verifier::rlimit(40)]
pub fn build_emv_merchant_payload(
    profile: &EmvMerchantProfile,
    currency_alpha: &str,
    amount: Option<Amount>,
    reference: Option<&str>,
) -> (r: Result<String, EmvQrError>)
    requires
        amount matches Some(a) ==> a.wf(),
    ensures
        ({
            let stage = emv_refusal(*profile, currency_alpha@, amount, opt_view(reference));
            &&& (stage == 0) == (r is Ok)
            &&& stage == 1 ==> r == Err::<String, EmvQrError>(
                EmvQrError::MerchantNameTooLong(fold_text(profile.merchant_name@).len() as usize),
            )
            &&& stage == 2 ==> r == Err::<String, EmvQrError>(
                EmvQrError::MerchantCityTooLong(fold_text(profile.merchant_city@).len() as usize),
            )
            &&& stage == 3 ==> (r matches Err(EmvQrError::InvalidCountry(c)) && c@ == profile.country@)
            &&& stage == 4 ==> (r matches Err(EmvQrError::InvalidMcc(m)) && m@ == profile.mcc@)
            &&& stage == 5 ==> (r matches Err(EmvQrError::InvalidInitiation(i)) && i@
                == profile.initiation@)
            &&& stage == 6 ==> (r matches Err(EmvQrError::InvalidMerchantAccount(m)) && m@
                == merchant_account_message())
            &&& stage == 7 ==> (r matches Err(EmvQrError::CurrencyNotSupported(c)) && c@
                == currency_alpha@)
            &&& stage == 8 ==> r == Err::<String, EmvQrError>(EmvQrError::InvalidAmount)
            &&& stage == 9 ==> r == Err::<String, EmvQrError>(EmvQrError::AmountTooLong)
            &&& stage == 10 ==> r == Err::<String, EmvQrError>(
                EmvQrError::ReferenceTooLong(reference_text(opt_view(reference)).len() as usize),
            )
            &&& r matches Ok(payload) ==> payload@ == with_crc(
                emv_body(*profile, currency_alpha@, amount, opt_view(reference)),
            )
            &&& r matches Ok(payload) ==> payload_shape(payload@)
        }),
{
    let f = match emv_fields(profile, currency_alpha, amount, reference) {
        Ok(f) => f,
        Err(e) => {
            return Err(e);
        },
    };
    let mut payload = assemble(&f);
    let ghost body = payload@;
    payload.push('6');
    payload.push('3');
    payload.push('0');
    payload.push('4');
    let head = string_of(&payload);
    let crc = crc16(head.as_str().as_bytes());
    let hex = hex4_digits(crc);
    append_chars(&mut payload, &hex);
    proof {
        assert(body + seq!['6', '3', '0', '4'] =~= head@);
        lemma_payload_shape(*profile, currency_alpha@, amount, opt_view(reference));
    }
    Ok(string_of(&payload))
}

/// A reference that folds to nothing changes nothing: the build refuses at
/// the same check, and otherwise yields the same body, as with no reference.
pub proof fn lemma_empty_reference_ignored(p: EmvMerchantProfile, currency: Seq<char>, amount: Option<Amount>, r: Seq<char>)
    requires
        fold_text(r).len() == 0,
    ensures
        emv_refusal(p, currency, amount, Some(r)) == emv_refusal(p, currency, amount, None),
        emv_body(p, currency, amount, Some(r)) == emv_body(p, currency, amount, None),
{
    assert(reference_text(Some(r)) =~= reference_text(None));
}

/// The view of an optional text.
pub open spec fn opt_view(s: Option<&str>) -> Option<Seq<char>> {
    match s {
        Some(t) => Some(t@),
        None => None,
    }
}

} // verus!
