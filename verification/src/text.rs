//! Text primitives that the rest of the library builds its checks and
//! messages from.

use vstd::prelude::*;
use vstd::string::StringSliceAdditionalSpecFns;
use vstd::utf8::{
    char_is_scalar, encode_scalar, encode_utf8, has_width_1_encoding, has_width_2_encoding,
    has_width_3_encoding,
};

verus! {

broadcast use vstd::string::group_string_axioms;

/// `String::push` appends the character to the end of the string.
pub assume_specification[ String::push ](s: &mut String, ch: char)
    ensures
        final(s)@ == old(s)@.push(ch),
;

/// `suffix` ends `s`.
pub open spec fn is_suffix(suffix: Seq<char>, s: Seq<char>) -> bool {
    &&& suffix.len() <= s.len()
    &&& s.subrange(s.len() - suffix.len(), s.len() as int) == suffix
}

/// The character of a decimal digit.
pub open spec fn digit_char(d: nat) -> char {
    seq!['0', '1', '2', '3', '4', '5', '6', '7', '8', '9'][d as int]
}

/// The decimal notation of a natural number, most significant digit first,
/// with no leading zeros.
pub open spec fn decimal_text(n: nat) -> Seq<char>
    decreases n,
{
    if n < 10 {
        seq![digit_char(n)]
    } else {
        decimal_text(n / 10).push(digit_char(n % 10))
    }
}

/// The decimal notation of an integer: a minus sign before the magnitude of
/// a negative one.
pub open spec fn signed_decimal_text(n: int) -> Seq<char> {
    if n < 0 {
        seq!['-'] + decimal_text((-n) as nat)
    } else {
        decimal_text(n as nat)
    }
}

/// The position of the first zero byte of `bytes`, if there is one.
pub open spec fn first_zero_byte(bytes: Seq<u8>) -> Option<int> {
    if exists|i: int| 0 <= i < bytes.len() && bytes[i] == 0 {
        Some(choose|i: int| 0 <= i < bytes.len() && bytes[i] == 0 && forall|j: int| 0 <= j < i ==> bytes[j] != 0)
    } else {
        None
    }
}

/// `bytes` holds a zero byte.
pub open spec fn has_zero_byte(bytes: Seq<u8>) -> bool {
    exists|i: int| 0 <= i < bytes.len() && bytes[i] == 0
}

proof fn lemma_scalar_zero_byte(c: char)
    ensures
        has_zero_byte(encode_scalar(c as u32)) <==> c == '\0',
{
    let v = c as u32;
    char_is_scalar(c);
    let e = encode_scalar(v);
    assert('\0' as u32 == 0u32);
    if has_width_1_encoding(v) {
        assert(((v & 0x7F) as u8 == 0) <==> v == 0) by (bit_vector)
            requires v <= 0x7F;
        assert(e.len() == 1 && e[0] == (v & 0x7F) as u8);
        if c != '\0' {
            assert(v != 0);
            assert(!has_zero_byte(e));
        } else {
            assert(e[0] == 0);
        }
    } else {
        assert(v != 0);
        assert(forall|x: u8| #![trigger (0x80u8 | x)] (0x80u8 | x) != 0u8) by (bit_vector);
        assert(forall|x: u8| #![trigger (0xC0u8 | x)] (0xC0u8 | x) != 0u8) by (bit_vector);
        assert(forall|x: u8| #![trigger (0xE0u8 | x)] (0xE0u8 | x) != 0u8) by (bit_vector);
        assert(forall|x: u8| #![trigger (0xF0u8 | x)] (0xF0u8 | x) != 0u8) by (bit_vector);
        assert forall|i: int| 0 <= i < e.len() implies e[i] != 0 by {
            if has_width_2_encoding(v) {
                assert(e[0] == (0xC0u8 | ((v >> 6) & 0x1F) as u8));
                assert(e[1] == (0x80u8 | (v & 0x3F) as u8));
            } else if has_width_3_encoding(v) {
                assert(e[0] == (0xE0u8 | ((v >> 12) & 0x0F) as u8));
                assert(e[1] == (0x80u8 | ((v >> 6) & 0x3F) as u8));
                assert(e[2] == (0x80u8 | (v & 0x3F) as u8));
            } else {
                assert(e[0] == (0xF0u8 | ((v >> 18) & 0x7) as u8));
                assert(e[1] == (0x80u8 | ((v >> 12) & 0x3F) as u8));
                assert(e[2] == (0x80u8 | ((v >> 6) & 0x3F) as u8));
                assert(e[3] == (0x80u8 | (v & 0x3F) as u8));
            }
        }
    }
}

/// The UTF-8 encoding of a text holds a zero byte exactly when the text
/// holds the NUL character.
pub proof fn law_zero_byte_iff_nul_char(chars: Seq<char>)
    ensures
        has_zero_byte(encode_utf8(chars)) <==> chars.contains('\0'),
    decreases chars.len(),
{
    if chars.len() == 0 {
        assert(encode_utf8(chars) =~= Seq::<u8>::empty());
    } else {
        let head = encode_scalar(chars[0] as u32);
        let rest = chars.drop_first();
        law_zero_byte_iff_nul_char(rest);
        lemma_scalar_zero_byte(chars[0]);
        let all = encode_utf8(chars);
        assert(all == head + encode_utf8(rest));
        if has_zero_byte(all) {
            let i = choose|i: int| 0 <= i < all.len() && all[i] == 0;
            if i < head.len() {
                assert(head[i] == 0);
                assert(chars[0] == '\0');
            } else {
                assert(encode_utf8(rest)[i - head.len()] == 0);
                let j = choose|j: int| 0 <= j < rest.len() && rest[j] == '\0';
                assert(chars[j + 1] == '\0');
            }
        }
        if chars.contains('\0') {
            let j = choose|j: int| 0 <= j < chars.len() && chars[j] == '\0';
            if j == 0 {
                let i = choose|i: int| 0 <= i < head.len() && head[i] == 0;
                assert(all[i] == 0);
            } else {
                assert(rest[j - 1] == '\0');
                let enc = encode_utf8(rest);
                let i = choose|i: int| 0 <= i < enc.len() && enc[i] == 0;
                assert(all[i + head.len()] == 0);
            }
        }
    }
}

/// The characters of `s`, in order.
pub fn chars_of(s: &str) -> (v: Vec<char>)
    ensures
        v@ == s@,
{
    let mut v: Vec<char> = Vec::new();
    for c in it: s.chars()
        invariant
            it.seq() == s@,
            v@ == it.seq().take(it.index() as int),
    {
        v.push(c);
    }
    v
}

/// Whether two strings hold the same characters.
pub fn str_eq(a: &str, b: &str) -> (r: bool)
    ensures
        r == (a@ == b@),
{
    let x = a.to_owned();
    let y = b.to_owned();
    x == y
}

/// Whether `s` ends with `suffix`.
pub fn has_suffix(s: &str, suffix: &str) -> (r: bool)
    ensures
        r == is_suffix(suffix@, s@),
{
    let sv = chars_of(s);
    let tv = chars_of(suffix);
    if tv.len() > sv.len() {
        return false;
    }
    let offset = sv.len() - tv.len();
    let mut i: usize = 0;
    while i < tv.len()
        invariant
            sv@ == s@,
            tv@ == suffix@,
            tv@.len() <= sv@.len(),
            sv@.len() <= usize::MAX,
            offset == sv@.len() - tv@.len(),
            i <= tv@.len(),
            forall|j: int| 0 <= j < i ==> sv@[offset + j] == tv@[j],
        decreases tv@.len() - i,
    {
        if sv[offset + i] != tv[i] {
            assert(s@.subrange(offset as int, s@.len() as int)[i as int] != suffix@[i as int]);
            return false;
        }
        i = i + 1;
    }
    assert(s@.subrange(offset as int, s@.len() as int) =~= suffix@);
    true
}

/// The position of the first zero byte in the UTF-8 encoding of `s`.
pub fn first_nul_byte(s: &str) -> (r: Option<usize>)
    ensures
        match r {
            Some(p) => first_zero_byte(s.spec_bytes()) == Some(p as int),
            None => first_zero_byte(s.spec_bytes()) is None,
        },
{
    let bytes = s.as_bytes();
    let mut i: usize = 0;
    while i < bytes.len()
        invariant
            bytes@ == s.spec_bytes(),
            i <= bytes@.len(),
            forall|j: int| 0 <= j < i ==> bytes@[j] != 0,
        decreases bytes@.len() - i,
    {
        if bytes[i] == 0 {
            let ghost b = bytes@;
            assert(b[i as int] == 0);
            let ghost w = choose|k: int| 0 <= k < b.len() && b[k] == 0 && forall|j: int| 0 <= j < k ==> b[j] != 0;
            assert(0 <= w < b.len() && b[w] == 0 && forall|j: int| 0 <= j < w ==> b[j] != 0);
            assert(w == i) by {
                if w < i {
                    assert(b[w] != 0);
                } else if w > i {
                    assert(b[i as int] != 0);
                }
            }
            return Some(i);
        }
        i = i + 1;
    }
    None
}

/// The character of the decimal digit `d`.
pub fn digit(d: u64) -> (c: char)
    requires
        d < 10,
    ensures
        c == digit_char(d as nat),
{
    if d == 0 { '0' }
    else if d == 1 { '1' }
    else if d == 2 { '2' }
    else if d == 3 { '3' }
    else if d == 4 { '4' }
    else if d == 5 { '5' }
    else if d == 6 { '6' }
    else if d == 7 { '7' }
    else if d == 8 { '8' }
    else { '9' }
}

/// Appends the decimal notation of `n` to `out`.
pub fn push_decimal(out: &mut String, n: u64)
    ensures
        final(out)@ == old(out)@ + decimal_text(n as nat),
{
    let mut m: u64 = n;
    let mut tail: Vec<char> = Vec::new();
    while m >= 10
        invariant
            decimal_text(n as nat) == decimal_text(m as nat) + tail@,
        decreases m,
    {
        let d = digit(m % 10);
        proof {
            assert(decimal_text(m as nat) == decimal_text((m / 10) as nat).push(digit_char((m % 10) as nat)));
            assert(decimal_text((m / 10) as nat).push(d) + tail@ =~= decimal_text((m / 10) as nat) + seq![d].add(tail@));
        }
        tail.insert(0, d);
        m = m / 10;
    }
    let ghost start = out@;
    out.push(digit(m));
    let mut i: usize = 0;
    while i < tail.len()
        invariant
            decimal_text(n as nat) == decimal_text(m as nat) + tail@,
            m < 10,
            i <= tail@.len(),
            out@ == start + decimal_text(m as nat) + tail@.take(i as int),
        decreases tail@.len() - i,
    {
        out.push(tail[i]);
        proof {
            assert(tail@.take(i as int).push(tail@[i as int]) =~= tail@.take(i + 1));
        }
        i = i + 1;
    }
    proof {
        assert(tail@.take(tail@.len() as int) =~= tail@);
        assert(start + decimal_text(m as nat) + tail@ =~= start + (decimal_text(m as nat) + tail@));
    }
}

/// Appends the decimal notation of `n` to `out`, with a minus sign before a
/// negative number.
pub fn push_signed_decimal(out: &mut String, n: i64)
    ensures
        final(out)@ == old(out)@ + signed_decimal_text(n as int),
{
    if n < 0 {
        let ghost start = out@;
        out.push('-');
        let magnitude: u64 = if n == i64::MIN { 9223372036854775808u64 } else { (-n) as u64 };
        push_decimal(out, magnitude);
        assert(out@ =~= start + (seq!['-'] + decimal_text((-n) as nat)));
    } else {
        push_decimal(out, n as u64);
    }
}

} // verus!
