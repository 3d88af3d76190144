//! Codecs between typed values and the attribute strings the toolkit uses.
//!
//! Every attribute value crosses the native boundary as text.  The functions
//! here pin down exactly which text stands for which value: decimal numerals
//! for integers, `YES` / `NO` for booleans, and `R G B` triples for colors.

use vstd::prelude::*;
use crate::strutil::str_eq;
use crate::strutil::split_str;
use crate::strutil::split_spec;
use crate::strutil::has_no_char;
use crate::strutil::lemma_split_concat;
use crate::strutil::lemma_split_whole;

verus! {

/// The numeral character for a single decimal digit.
pub open spec fn digit_char(d: nat) -> char {
    if d == 0 { '0' }
    else if d == 1 { '1' }
    else if d == 2 { '2' }
    else if d == 3 { '3' }
    else if d == 4 { '4' }
    else if d == 5 { '5' }
    else if d == 6 { '6' }
    else if d == 7 { '7' }
    else if d == 8 { '8' }
    else { '9' }
}

/// The canonical decimal numeral of a natural number, most significant digit first.
pub open spec fn dec_digits(n: nat) -> Seq<char>
    decreases n,
{
    if n < 10 {
        seq![digit_char(n)]
    } else {
        dec_digits(n / 10) + seq![digit_char(n % 10)]
    }
}

pub open spec fn is_digit(c: char) -> bool {
    48 <= c as int <= 57
}

pub open spec fn digit_val(c: char) -> nat {
    (c as int - 48) as nat
}

pub open spec fn all_digits(s: Seq<char>) -> bool {
    forall|i: int| 0 <= i < s.len() ==> is_digit(#[trigger] s[i])
}

/// The value of a digit string read as a decimal numeral.
pub open spec fn dec_val(s: Seq<char>) -> nat
    decreases s.len(),
{
    if s.len() == 0 {
        0
    } else {
        dec_val(s.drop_last()) * 10 + digit_val(s.last())
    }
}

/// The canonical numeral of `n` is a nonempty digit string that reads back as `n`.
pub proof fn lemma_dec_round_trip(n: nat)
    ensures
        dec_digits(n).len() > 0,
        all_digits(dec_digits(n)),
        dec_val(dec_digits(n)) == n,
    decreases n,
{
    if n < 10 {
        let s = dec_digits(n);
        assert(s == seq![digit_char(n)]);
        assert(s.drop_last() =~= Seq::<char>::empty());
        assert(dec_val(s.drop_last()) == 0);
        assert(digit_val(digit_char(n)) == n);
        assert(dec_val(s) == n);
    } else {
        lemma_dec_round_trip(n / 10);
        let hi = dec_digits(n / 10);
        let s = dec_digits(n);
        assert(s == hi + seq![digit_char(n % 10)]);
        assert(s.drop_last() =~= hi);
        assert(s.last() == digit_char(n % 10));
        assert(digit_val(digit_char(n % 10)) == n % 10);
        assert(dec_val(s) == dec_val(hi) * 10 + n % 10);
        assert(dec_val(hi) * 10 + n % 10 == n) by (nonlinear_arith)
            requires dec_val(hi) == n / 10;
        assert(forall|i: int| 0 <= i < s.len() ==> is_digit(#[trigger] s[i])) by {
            assert(forall|i: int| 0 <= i < hi.len() ==> is_digit(#[trigger] hi[i]));
            assert(is_digit(digit_char(n % 10)));
            assert(forall|i: int| 0 <= i < s.len() ==> s[i] == if i < hi.len() { hi[i] } else { digit_char(n % 10) });
        }
    }
}

/// Distinct numbers have distinct canonical numerals.
pub proof fn lemma_dec_digits_injective(a: nat, b: nat)
    requires
        dec_digits(a) == dec_digits(b),
    ensures
        a == b,
{
    lemma_dec_round_trip(a);
    lemma_dec_round_trip(b);
}

fn digit_str(d: u32) -> (r: &'static str)
    requires
        d < 10,
    ensures
        r@ == seq![digit_char(d as nat)],
{
    let s = match d {
        0 => "0",
        1 => "1",
        2 => "2",
        3 => "3",
        4 => "4",
        5 => "5",
        6 => "6",
        7 => "7",
        8 => "8",
        _ => "9",
    };
    proof {
        reveal_strlit("0");
        reveal_strlit("1");
        reveal_strlit("2");
        reveal_strlit("3");
        reveal_strlit("4");
        reveal_strlit("5");
        reveal_strlit("6");
        reveal_strlit("7");
        reveal_strlit("8");
        reveal_strlit("9");
        assert(s@ =~= seq![digit_char(d as nat)]);
    }
    s
}

/// Renders `n` as its canonical decimal numeral.
pub fn format_u32(n: u32) -> (s: String)
    ensures
        s@ == dec_digits(n as nat),
    decreases n,
{
    if n < 10 {
        let d = digit_str(n);
        let s = String::from_str(d);
        s
    } else {
        let hi = format_u32(n / 10);
        let lo = digit_str(n % 10);
        let s = hi.concat(lo);
        proof {
            assert(s@ =~= dec_digits(n as nat));
        }
        s
    }
}

proof fn lemma_dec_val_step(s: Seq<char>, i: int)
    requires
        0 <= i < s.len(),
    ensures
        dec_val(s.subrange(0, i + 1)) == dec_val(s.subrange(0, i)) * 10 + digit_val(s[i]),
{
    let p = s.subrange(0, i + 1);
    assert(p.drop_last() =~= s.subrange(0, i));
    assert(p.last() == s[i]);
}

proof fn lemma_dec_val_mono(s: Seq<char>, i: int, j: int)
    requires
        0 <= i <= j <= s.len(),
    ensures
        dec_val(s.subrange(0, i)) <= dec_val(s.subrange(0, j)),
    decreases j - i,
{
    if i < j {
        lemma_dec_val_step(s, j - 1);
        lemma_dec_val_mono(s, i, j - 1);
    }
}

/// Reads a decimal numeral.  Succeeds exactly on nonempty all-digit strings
/// whose value fits in a `u32`.
pub fn parse_u32(s: &str) -> (r: Option<u32>)
    ensures
        match r {
            Some(v) => s@.len() > 0 && all_digits(s@) && v as nat == dec_val(s@),
            None => s@.len() == 0 || !all_digits(s@) || dec_val(s@) > u32::MAX,
        },
{
    let len = s.unicode_len();
    if len == 0 {
        return None;
    }
    let mut acc: u32 = 0;
    let mut i: usize = 0;
    while i < len
        invariant
            len == s@.len(),
            0 < len,
            i <= len,
            forall|j: int| 0 <= j < i ==> is_digit(#[trigger] s@[j]),
            acc as nat == dec_val(s@.subrange(0, i as int)),
        decreases len - i,
    {
        let c = s.get_char(i);
        let cv = c as u32;
        if cv < 48 || cv > 57 {
            assert(!is_digit(s@[i as int]));
            return None;
        }
        let d = cv - 48;
        proof {
            lemma_dec_val_step(s@, i as int);
        }
        if acc > (u32::MAX - d) / 10 {
            proof {
                assert(acc as nat * 10 + d as nat > u32::MAX) by (nonlinear_arith)
                    requires acc > (u32::MAX - d) / 10 && d < 10 && acc <= u32::MAX && u32::MAX == 4294967295;
                lemma_dec_val_mono(s@, i as int + 1, len as int);
                assert(s@.subrange(0, len as int) =~= s@);
            }
            return None;
        }
        assert(acc as nat * 10 + d as nat <= u32::MAX) by (nonlinear_arith)
            requires acc <= (u32::MAX - d) / 10 && d < 10 && u32::MAX == 4294967295;
        acc = acc * 10 + d;
        i = i + 1;
    }
    proof {
        assert(s@.subrange(0, len as int) =~= s@);
    }
    Some(acc)
}

/// Whether an attribute name is one the toolkit reads as an item number.
pub open spec fn numeral_key(k: Seq<char>) -> bool {
    k.len() > 0 && all_digits(k)
}

/// Whether a string is a nonempty run of decimal digits.
pub fn is_numeral(s: &str) -> (r: bool)
    ensures
        r == numeral_key(s@),
{
    let len = s.unicode_len();
    if len == 0 {
        return false;
    }
    let mut i: usize = 0;
    while i < len
        invariant
            len == s@.len(),
            i <= len,
            forall|j: int| 0 <= j < i ==> is_digit(#[trigger] s@[j]),
        decreases len - i,
    {
        let c = s.get_char(i);
        let cv = c as u32;
        if cv < 48 || cv > 57 {
            assert(!is_digit(s@[i as int]));
            return false;
        }
        i = i + 1;
    }
    true
}

/// The attribute text for a boolean, per the toolkit's `YES` / `NO` convention.
pub open spec fn bool_text(b: bool) -> Seq<char> {
    if b { "YES"@ } else { "NO"@ }
}

/// Which booleans an attribute string stands for, if any.
pub open spec fn spec_decode_bool(s: Seq<char>) -> Option<bool> {
    if s == "YES"@ { Some(true) } else if s == "NO"@ { Some(false) } else { None }
}

/// Encodes a boolean as attribute text.
pub fn encode_bool(b: bool) -> (r: &'static str)
    ensures
        r@ == bool_text(b),
        spec_decode_bool(r@) == Some(b),
{
    proof {
        lemma_bool_round_trip(b);
    }
    if b { "YES" } else { "NO" }
}

/// Decodes attribute text as a boolean.
pub fn decode_bool(s: &str) -> (r: Option<bool>)
    ensures
        r == spec_decode_bool(s@),
{
    if str_eq(s, "YES") {
        Some(true)
    } else if str_eq(s, "NO") {
        Some(false)
    } else {
        None
    }
}

/// Decoding is a left inverse of encoding.
pub proof fn lemma_bool_round_trip(b: bool)
    ensures
        spec_decode_bool(bool_text(b)) == Some(b),
{
    reveal_strlit("YES");
    reveal_strlit("NO");
    assert("YES"@.len() == 3);
    assert("NO"@.len() == 2);
    assert("YES"@ != "NO"@);
}

/// The attribute text for a color: three decimal components separated by spaces.
pub open spec fn rgb_text(r: u8, g: u8, b: u8) -> Seq<char> {
    dec_digits(r as nat) + seq![' '] + dec_digits(g as nat) + seq![' '] + dec_digits(b as nat)
}

/// Which color an attribute string stands for: three space-separated decimal
/// components, each at most 255.
pub open spec fn spec_parse_rgb(s: Seq<char>) -> Option<(u8, u8, u8)> {
    let ps = split_spec(s, ' ');
    if ps.len() == 3
        && ps[0].len() > 0 && all_digits(ps[0]) && dec_val(ps[0]) <= 255
        && ps[1].len() > 0 && all_digits(ps[1]) && dec_val(ps[1]) <= 255
        && ps[2].len() > 0 && all_digits(ps[2]) && dec_val(ps[2]) <= 255
    {
        Some((dec_val(ps[0]) as u8, dec_val(ps[1]) as u8, dec_val(ps[2]) as u8))
    } else {
        None
    }
}

/// Encodes a color as attribute text.
pub fn format_rgb(rgb: (u8, u8, u8)) -> (s: String)
    ensures
        s@ == rgb_text(rgb.0, rgb.1, rgb.2),
{
    let a = format_u32(rgb.0 as u32);
    let b = format_u32(rgb.1 as u32);
    let c = format_u32(rgb.2 as u32);
    proof {
        reveal_strlit(" ");
        assert(" "@ =~= seq![' ']);
    }
    let s = a.concat(" ").concat(b.as_str()).concat(" ").concat(c.as_str());
    proof {
        assert(s@ =~= rgb_text(rgb.0, rgb.1, rgb.2));
    }
    s
}

/// Decodes attribute text as a color.
pub fn parse_rgb(s: &str) -> (r: Option<(u8, u8, u8)>)
    ensures
        r == spec_parse_rgb(s@),
{
    let parts = split_str(s, ' ');
    if parts.len() != 3 {
        return None;
    }
    let p0 = parse_u32(parts[0].as_str());
    let p1 = parse_u32(parts[1].as_str());
    let p2 = parse_u32(parts[2].as_str());
    match (p0, p1, p2) {
        (Some(a), Some(b), Some(c)) => {
            if a <= 255 && b <= 255 && c <= 255 {
                Some((a as u8, b as u8, c as u8))
            } else {
                None
            }
        },
        _ => None,
    }
}

/// A digit is never the separating space.
proof fn lemma_digits_no_space(t: Seq<char>)
    requires
        all_digits(t),
    ensures
        has_no_char(t, ' '),
{
    assert(' ' as int == 32);
    assert(forall|i: int| 0 <= i < t.len() ==> #[trigger] t[i] != ' ') by {
        assert(forall|i: int| 0 <= i < t.len() ==> is_digit(#[trigger] t[i]));
    }
}

/// Parsing is a left inverse of encoding a color.
pub proof fn lemma_rgb_round_trip(r: u8, g: u8, b: u8)
    ensures
        spec_parse_rgb(rgb_text(r, g, b)) == Some((r, g, b)),
{
    let t1 = dec_digits(r as nat);
    let t2 = dec_digits(g as nat);
    let t3 = dec_digits(b as nat);
    lemma_dec_round_trip(r as nat);
    lemma_dec_round_trip(g as nat);
    lemma_dec_round_trip(b as nat);
    lemma_digits_no_space(t1);
    lemma_digits_no_space(t2);
    lemma_digits_no_space(t3);
    let s = rgb_text(r, g, b);
    let tail = t2 + seq![' '] + t3;
    assert(s =~= t1 + seq![' '] + tail);
    lemma_split_concat(t1, tail, ' ');
    lemma_split_concat(t2, t3, ' ');
    lemma_split_whole(t1, ' ');
    lemma_split_whole(t2, ' ');
    lemma_split_whole(t3, ' ');
    assert(split_spec(s, ' ') =~= seq![t1, t2, t3]);
}

} // verus!
