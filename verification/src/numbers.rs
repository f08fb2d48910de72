//! Rendering and parsing of unsigned numbers in hexadecimal and decimal.
//!
//! Document ids are rendered as fixed-width lowercase hexadecimal; the
//! command line supplies the starting id in hexadecimal and the retry,
//! worker and pace settings in decimal; the final report renders tallies
//! in decimal. The round-trip lemma here is what makes distinct ids render
//! as distinct strings.

use vstd::prelude::*;
use vstd::string::*;

verus! {

/// The lowercase hexadecimal digit character for `d`.
pub open spec fn hex_char_of(d: nat) -> char {
    if d == 0 { '0' }
    else if d == 1 { '1' }
    else if d == 2 { '2' }
    else if d == 3 { '3' }
    else if d == 4 { '4' }
    else if d == 5 { '5' }
    else if d == 6 { '6' }
    else if d == 7 { '7' }
    else if d == 8 { '8' }
    else if d == 9 { '9' }
    else if d == 10 { 'a' }
    else if d == 11 { 'b' }
    else if d == 12 { 'c' }
    else if d == 13 { 'd' }
    else if d == 14 { 'e' }
    else { 'f' }
}

/// The numeric value of a hexadecimal digit character, either case;
/// 16 for anything that is not one.
pub open spec fn hex_val(ch: char) -> nat {
    if ch == '0' { 0 }
    else if ch == '1' { 1 }
    else if ch == '2' { 2 }
    else if ch == '3' { 3 }
    else if ch == '4' { 4 }
    else if ch == '5' { 5 }
    else if ch == '6' { 6 }
    else if ch == '7' { 7 }
    else if ch == '8' { 8 }
    else if ch == '9' { 9 }
    else if ch == 'a' || ch == 'A' { 10 }
    else if ch == 'b' || ch == 'B' { 11 }
    else if ch == 'c' || ch == 'C' { 12 }
    else if ch == 'd' || ch == 'D' { 13 }
    else if ch == 'e' || ch == 'E' { 14 }
    else if ch == 'f' || ch == 'F' { 15 }
    else { 16 }
}

pub open spec fn is_hex_char(ch: char) -> bool {
    hex_val(ch) < 16
}

/// A lowercase hexadecimal digit character: what rendered ids consist of.
pub open spec fn is_lower_hex_char(ch: char) -> bool {
    ||| ch == '0' ||| ch == '1' ||| ch == '2' ||| ch == '3'
    ||| ch == '4' ||| ch == '5' ||| ch == '6' ||| ch == '7'
    ||| ch == '8' ||| ch == '9' ||| ch == 'a' ||| ch == 'b'
    ||| ch == 'c' ||| ch == 'd' ||| ch == 'e' ||| ch == 'f'
}

/// A non-empty, all-hexadecimal character sequence.
pub open spec fn valid_hex(s: Seq<char>) -> bool {
    s.len() > 0 && forall|i: int| 0 <= i < s.len() ==> is_hex_char(#[trigger] s[i])
}

/// 16 to the power `w`.
pub open spec fn pow16(w: nat) -> nat
    decreases w,
{
    if w == 0 { 1 } else { 16 * pow16((w - 1) as nat) }
}

/// The hexadecimal digits of `n`, most significant first, no padding.
pub open spec fn hex_seq(n: nat) -> Seq<char>
    decreases n,
{
    if n < 16 { seq![hex_char_of(n)] } else { hex_seq(n / 16).push(hex_char_of(n % 16)) }
}

/// `s` left-padded with '0' to width `w` (unchanged if already that wide).
pub open spec fn zero_pad(s: Seq<char>, w: nat) -> Seq<char> {
    if s.len() >= w { s } else { Seq::new((w - s.len()) as nat, |i: int| '0') + s }
}

/// `n` rendered in lowercase hexadecimal, zero-padded to at least `w` digits.
pub open spec fn hex_fixed(n: nat, w: nat) -> Seq<char> {
    zero_pad(hex_seq(n), w)
}

/// The value of a hexadecimal character sequence (horner, high digits first).
pub open spec fn parse_hex_seq(s: Seq<char>) -> nat
    decreases s.len(),
{
    if s.len() == 0 { 0 } else { parse_hex_seq(s.drop_last()) * 16 + hex_val(s.last()) }
}

/// Every digit the renderer emits is a lowercase hexadecimal character
/// and parses back to its own value.
pub proof fn lemma_hex_char_of_val(d: nat)
    requires
        d < 16,
    ensures
        is_lower_hex_char(hex_char_of(d)),
        hex_val(hex_char_of(d)) == d,
{
}

/// A rendered number is non-empty and all lowercase hexadecimal.
pub proof fn lemma_hex_seq_chars(n: nat)
    ensures
        hex_seq(n).len() >= 1,
        forall|i: int| 0 <= i < hex_seq(n).len() ==> is_lower_hex_char(#[trigger] hex_seq(n)[i]),
    decreases n,
{
    if n < 16 {
        lemma_hex_char_of_val(n);
    } else {
        lemma_hex_seq_chars(n / 16);
        lemma_hex_char_of_val(n % 16);
        assert forall|i: int| 0 <= i < hex_seq(n).len() implies
            is_lower_hex_char(#[trigger] hex_seq(n)[i]) by {
            if i < hex_seq(n / 16).len() {
                assert(hex_seq(n)[i] == hex_seq(n / 16)[i]);
            }
        }
    }
}

/// A number below `pow16(w)` renders in at most `w` digits.
pub proof fn lemma_hex_seq_len(n: nat, w: nat)
    requires
        n < pow16(w),
        w >= 1,
    ensures
        hex_seq(n).len() <= w,
    decreases w,
{
    if n < 16 {
    } else {
        assert(pow16(w) == 16 * pow16((w - 1) as nat));
        assert(n / 16 < pow16((w - 1) as nat));
        assert(w >= 2) by {
            if w == 1 { assert(pow16(1nat) == 16); }
        }
        lemma_hex_seq_len(n / 16, (w - 1) as nat);
    }
}

/// Rendering then parsing gives the number back.
pub proof fn lemma_parse_hex_roundtrip(n: nat)
    ensures
        valid_hex(hex_seq(n)),
        parse_hex_seq(hex_seq(n)) == n,
    decreases n,
{
    lemma_hex_seq_chars(n);
    assert forall|i: int| 0 <= i < hex_seq(n).len() implies is_hex_char(#[trigger] hex_seq(n)[i]) by {
        assert(is_lower_hex_char(hex_seq(n)[i]));
    }
    if n < 16 {
        lemma_hex_char_of_val(n);
        assert(hex_seq(n).drop_last() =~= Seq::<char>::empty());
        assert(parse_hex_seq(Seq::<char>::empty()) == 0);
        assert(hex_seq(n).last() == hex_char_of(n));
    } else {
        lemma_parse_hex_roundtrip(n / 16);
        lemma_hex_char_of_val(n % 16);
        assert(hex_seq(n).drop_last() =~= hex_seq(n / 16));
        assert(parse_hex_seq(hex_seq(n)) == (n / 16) * 16 + n % 16);
        vstd::arithmetic::div_mod::lemma_fundamental_div_mod(n as int, 16);
    }
}

/// Parsing ignores leading zeros.
pub proof fn lemma_parse_leading_zeros(p: Seq<char>, s: Seq<char>)
    requires
        forall|i: int| 0 <= i < p.len() ==> p[i] == '0',
    ensures
        parse_hex_seq(p + s) == parse_hex_seq(s),
    decreases s.len(),
{
    if s.len() == 0 {
        assert(p + s =~= p);
        lemma_parse_all_zeros(p);
    } else {
        assert((p + s).drop_last() =~= p + s.drop_last());
        assert((p + s).last() == s.last());
        lemma_parse_leading_zeros(p, s.drop_last());
    }
}

/// An all-zero sequence parses to zero.
pub proof fn lemma_parse_all_zeros(p: Seq<char>)
    requires
        forall|i: int| 0 <= i < p.len() ==> p[i] == '0',
    ensures
        parse_hex_seq(p) == 0,
    decreases p.len(),
{
    if p.len() > 0 {
        lemma_parse_all_zeros(p.drop_last());
        assert(hex_val(p.last()) == 0);
    }
}

/// Fixed-width rendering still parses back to the number: the padding
/// changes nothing.
pub proof fn lemma_parse_hex_fixed(n: nat, w: nat)
    ensures
        parse_hex_seq(hex_fixed(n, w)) == n,
    decreases n,
{
    lemma_parse_hex_roundtrip(n);
    if hex_seq(n).len() >= w {
    } else {
        let p = Seq::new((w - hex_seq(n).len()) as nat, |i: int| '0');
        lemma_parse_leading_zeros(p, hex_seq(n));
    }
}

/// Distinct numbers render as distinct fixed-width strings: rendering is
/// injective, whatever the width.
pub proof fn lemma_hex_fixed_injective(a: nat, b: nat, w: nat)
    requires
        hex_fixed(a, w) == hex_fixed(b, w),
    ensures
        a == b,
{
    lemma_parse_hex_fixed(a, w);
    lemma_parse_hex_fixed(b, w);
}

/// A fixed-width rendering consists of lowercase hexadecimal digits only,
/// and is exactly `w` digits wide whenever the number fits in `w` digits.
pub proof fn lemma_hex_fixed_chars(n: nat, w: nat)
    ensures
        forall|i: int| 0 <= i < hex_fixed(n, w).len()
            ==> is_lower_hex_char(#[trigger] hex_fixed(n, w)[i]),
        n < pow16(w) && w >= 1 ==> hex_fixed(n, w).len() == w,
{
    lemma_hex_seq_chars(n);
    if n < pow16(w) && w >= 1 {
        lemma_hex_seq_len(n, w);
    }
    if hex_seq(n).len() >= w {
    } else {
        let zeros = (w - hex_seq(n).len()) as int;
        assert forall|i: int| 0 <= i < hex_fixed(n, w).len() implies
            is_lower_hex_char(#[trigger] hex_fixed(n, w)[i]) by {
            if i >= zeros {
                assert(hex_fixed(n, w)[i] == hex_seq(n)[i - zeros]);
            }
        }
    }
}

/// A parse of a prefix never exceeds the parse of the whole: every further
/// digit multiplies and adds.
pub proof fn lemma_parse_hex_prefix_le(s: Seq<char>, k: int)
    requires
        0 <= k <= s.len(),
    ensures
        parse_hex_seq(s.take(k)) <= parse_hex_seq(s),
    decreases s.len(),
{
    if k == s.len() {
        assert(s.take(k) =~= s);
    } else {
        assert(s.drop_last().take(k) =~= s.take(k));
        lemma_parse_hex_prefix_le(s.drop_last(), k);
    }
}

/// The two fixed powers of 16 the contracts lean on: the 11-digit document
/// id space, and the first power past the range of `u64`.
pub proof fn lemma_pow16_values()
    ensures
        pow16(11) == 0x100000000000,
        pow16(16) == 0x10000000000000000,
{
    reveal_with_fuel(pow16, 17);
}

/// The single lowercase hexadecimal digit for `d`.
pub fn hex_digit_str(d: u64) -> (r: &'static str)
    requires
        d < 16,
    ensures
        r@ == seq![hex_char_of(d as nat)],
{
    proof {
        reveal_strlit("0");
        reveal_strlit("1");
        reveal_strlit("2");
        reveal_strlit("3");
        reveal_strlit("4");
        reveal_strlit("5");
        reveal_strlit("6");
        reveal_strlit("7");
        reveal_strlit("8");
        reveal_strlit("9");
        reveal_strlit("a");
        reveal_strlit("b");
        reveal_strlit("c");
        reveal_strlit("d");
        reveal_strlit("e");
        reveal_strlit("f");
    }
    if d == 0 { proof { assert("0"@ =~= seq!['0']); } "0" }
    else if d == 1 { proof { assert("1"@ =~= seq!['1']); } "1" }
    else if d == 2 { proof { assert("2"@ =~= seq!['2']); } "2" }
    else if d == 3 { proof { assert("3"@ =~= seq!['3']); } "3" }
    else if d == 4 { proof { assert("4"@ =~= seq!['4']); } "4" }
    else if d == 5 { proof { assert("5"@ =~= seq!['5']); } "5" }
    else if d == 6 { proof { assert("6"@ =~= seq!['6']); } "6" }
    else if d == 7 { proof { assert("7"@ =~= seq!['7']); } "7" }
    else if d == 8 { proof { assert("8"@ =~= seq!['8']); } "8" }
    else if d == 9 { proof { assert("9"@ =~= seq!['9']); } "9" }
    else if d == 10 { proof { assert("a"@ =~= seq!['a']); } "a" }
    else if d == 11 { proof { assert("b"@ =~= seq!['b']); } "b" }
    else if d == 12 { proof { assert("c"@ =~= seq!['c']); } "c" }
    else if d == 13 { proof { assert("d"@ =~= seq!['d']); } "d" }
    else if d == 14 { proof { assert("e"@ =~= seq!['e']); } "e" }
    else { proof { assert("f"@ =~= seq!['f']); } "f" }
}

/// `n` in lowercase hexadecimal, no padding.
pub fn hex_string(n: u64) -> (r: String)
    ensures
        r@ == hex_seq(n as nat),
    decreases n,
{
    if n < 16 {
        String::from_str(hex_digit_str(n))
    } else {
        let mut s = hex_string(n / 16);
        s.append(hex_digit_str(n % 16));
        proof {
            assert(s@ =~= hex_seq((n / 16) as nat).push(hex_char_of((n % 16) as nat)));
        }
        s
    }
}

/// The number of hexadecimal digits `n` renders as.
pub fn hex_width(n: u64) -> (w: usize)
    ensures
        w == hex_seq(n as nat).len(),
        w <= 16,
    decreases n,
{
    if n < 16 {
        1
    } else {
        let inner = hex_width(n / 16);
        proof {
            lemma_pow16_values();
            vstd::arithmetic::div_mod::lemma_fundamental_div_mod(n as int, 16);
            assert(((n / 16) as nat) < pow16(15)) by {
                assert(pow16(16) == 16 * pow16(15));
            }
            lemma_hex_seq_len((n / 16) as nat, 15);
        }
        inner + 1
    }
}

/// `n` in lowercase hexadecimal, left-padded with zeros to at least
/// `width` digits — the shape of an externally visible document id.
pub fn format_fixed_hex(n: u64, width: usize) -> (r: String)
    ensures
        r@ == hex_fixed(n as nat, width as nat),
{
    let w = hex_width(n);
    let digits = hex_string(n);
    if w >= width {
        digits
    } else {
        let pad: usize = width - w;
        let mut s = String::new();
        let mut k: usize = 0;
        while k < pad
            invariant
                k <= pad,
                s@ == Seq::new(k as nat, |i: int| '0'),
            decreases pad - k,
        {
            s.append(hex_digit_str(0));
            k = k + 1;
            proof {
                assert(s@ =~= Seq::new(k as nat, |i: int| '0'));
            }
        }
        s.append(digits.as_str());
        proof {
            assert(s@ =~= hex_fixed(n as nat, width as nat));
        }
        s
    }
}

/// The value of one hexadecimal digit character, either case; 16 when the
/// character is no hexadecimal digit.
pub fn hex_char_value(ch: char) -> (v: u64)
    ensures
        v == hex_val(ch),
{
    if ch == '0' { 0 }
    else if ch == '1' { 1 }
    else if ch == '2' { 2 }
    else if ch == '3' { 3 }
    else if ch == '4' { 4 }
    else if ch == '5' { 5 }
    else if ch == '6' { 6 }
    else if ch == '7' { 7 }
    else if ch == '8' { 8 }
    else if ch == '9' { 9 }
    else if ch == 'a' || ch == 'A' { 10 }
    else if ch == 'b' || ch == 'B' { 11 }
    else if ch == 'c' || ch == 'C' { 12 }
    else if ch == 'd' || ch == 'D' { 13 }
    else if ch == 'e' || ch == 'E' { 14 }
    else if ch == 'f' || ch == 'F' { 15 }
    else { 16 }
}

/// Parse a hexadecimal number, either case, as the starting document id is
/// given on the command line. `None` exactly when the text is empty, holds
/// a non-hexadecimal character, or encodes a value beyond `u64`.
pub fn parse_hex(s: &str) -> (r: Option<u64>)
    ensures
        match r {
            Some(v) => valid_hex(s@) && parse_hex_seq(s@) <= u64::MAX && v == parse_hex_seq(s@),
            None => !valid_hex(s@) || parse_hex_seq(s@) > u64::MAX,
        },
{
    let n = s.unicode_len();
    if n == 0 {
        return None;
    }
    let mut acc: u64 = 0;
    let mut i: usize = 0;
    proof {
        assert(s@.take(0) =~= Seq::<char>::empty());
    }
    while i < n
        invariant
            n == s@.len(),
            0 <= i <= n,
            forall|j: int| 0 <= j < i ==> is_hex_char(#[trigger] s@[j]),
            acc == parse_hex_seq(s@.take(i as int)),
        decreases n - i,
    {
        let ch = s.get_char(i);
        let d = hex_char_value(ch);
        if d >= 16 {
            assert(!is_hex_char(s@[i as int]));
            return None;
        }
        if acc > u64::MAX / 16 {
            proof {
                assert(s@.take(i as int + 1).drop_last() =~= s@.take(i as int));
                assert(s@.take(i as int + 1).last() == s@[i as int]);
                assert(parse_hex_seq(s@.take(i as int + 1)) > u64::MAX);
                lemma_parse_hex_prefix_le(s@, i as int + 1);
            }
            return None;
        }
        acc = acc * 16 + d;
        i = i + 1;
        proof {
            assert(s@.take(i as int).drop_last() =~= s@.take(i as int - 1));
            assert(s@.take(i as int).last() == s@[i as int - 1]);
        }
    }
    proof {
        assert(s@.take(n as int) =~= s@);
    }
    Some(acc)
}

/// The decimal digits of `n`, most significant first.
pub open spec fn dec_seq(n: nat) -> Seq<char>
    decreases n,
{
    if n < 10 { seq![hex_char_of(n)] } else { dec_seq(n / 10).push(hex_char_of(n % 10)) }
}

/// A decimal digit character.
pub open spec fn is_dec_char(ch: char) -> bool {
    hex_val(ch) < 10
}

/// A non-empty, all-decimal character sequence.
pub open spec fn valid_dec(s: Seq<char>) -> bool {
    s.len() > 0 && forall|i: int| 0 <= i < s.len() ==> is_dec_char(#[trigger] s[i])
}

/// The value of a decimal character sequence.
pub open spec fn parse_dec_seq(s: Seq<char>) -> nat
    decreases s.len(),
{
    if s.len() == 0 { 0 } else { parse_dec_seq(s.drop_last()) * 10 + hex_val(s.last()) }
}

/// A parse of a decimal prefix never exceeds the parse of the whole.
pub proof fn lemma_parse_dec_prefix_le(s: Seq<char>, k: int)
    requires
        0 <= k <= s.len(),
    ensures
        parse_dec_seq(s.take(k)) <= parse_dec_seq(s),
    decreases s.len(),
{
    if k == s.len() {
        assert(s.take(k) =~= s);
    } else {
        assert(s.drop_last().take(k) =~= s.take(k));
        lemma_parse_dec_prefix_le(s.drop_last(), k);
    }
}

/// `n` in decimal, as the final report renders its tallies.
pub fn dec_string(n: u64) -> (r: String)
    ensures
        r@ == dec_seq(n as nat),
    decreases n,
{
    if n < 10 {
        String::from_str(hex_digit_str(n))
    } else {
        let mut s = dec_string(n / 10);
        s.append(hex_digit_str(n % 10));
        proof {
            assert(s@ =~= dec_seq((n / 10) as nat).push(hex_char_of((n % 10) as nat)));
        }
        s
    }
}

/// Parse a decimal number, as the retry, worker and pace settings are given
/// on the command line. `None` exactly when the text is empty, holds a
/// non-decimal character, or encodes a value beyond `u64`.
pub fn parse_dec(s: &str) -> (r: Option<u64>)
    ensures
        match r {
            Some(v) => valid_dec(s@) && parse_dec_seq(s@) <= u64::MAX && v == parse_dec_seq(s@),
            None => !valid_dec(s@) || parse_dec_seq(s@) > u64::MAX,
        },
{
    let n = s.unicode_len();
    if n == 0 {
        return None;
    }
    let mut acc: u64 = 0;
    let mut i: usize = 0;
    proof {
        assert(s@.take(0) =~= Seq::<char>::empty());
    }
    while i < n
        invariant
            n == s@.len(),
            0 <= i <= n,
            forall|j: int| 0 <= j < i ==> is_dec_char(#[trigger] s@[j]),
            acc == parse_dec_seq(s@.take(i as int)),
        decreases n - i,
    {
        let ch = s.get_char(i);
        let d = hex_char_value(ch);
        if d >= 10 {
            assert(!is_dec_char(s@[i as int]));
            return None;
        }
        if acc > u64::MAX / 10 || (acc == u64::MAX / 10 && d > u64::MAX % 10) {
            proof {
                assert(s@.take(i as int + 1).drop_last() =~= s@.take(i as int));
                assert(s@.take(i as int + 1).last() == s@[i as int]);
                assert(parse_dec_seq(s@.take(i as int + 1)) > u64::MAX);
                lemma_parse_dec_prefix_le(s@, i as int + 1);
            }
            return None;
        }
        acc = acc * 10 + d;
        i = i + 1;
        proof {
            assert(s@.take(i as int).drop_last() =~= s@.take(i as int - 1));
            assert(s@.take(i as int).last() == s@[i as int - 1]);
        }
    }
    proof {
        assert(s@.take(n as int) =~= s@);
    }
    Some(acc)
}

} // verus!
