use vstd::prelude::*;

use vstd::arithmetic::div_mod::{
    lemma_div_basics, lemma_div_denominator, lemma_mod_breakdown, lemma_small_mod,
};

verus! {

/// Relies on String::push: appends exactly the given character.
#[verifier::external_body]
pub(crate) fn push_char(s: &mut String, c: char)
    ensures
        final(s)@ == old(s)@.push(c),
{
    s.push(c);
}

pub open spec fn is_digit_char(c: char) -> bool {
    48 <= c as u32 && c as u32 <= 57
}

pub open spec fn digit_val(c: char) -> nat {
    (c as u32 - 48) as nat
}

pub open spec fn digit_char(d: nat) -> char {
    if d == 0 {
        '0'
    } else if d == 1 {
        '1'
    } else if d == 2 {
        '2'
    } else if d == 3 {
        '3'
    } else if d == 4 {
        '4'
    } else if d == 5 {
        '5'
    } else if d == 6 {
        '6'
    } else if d == 7 {
        '7'
    } else if d == 8 {
        '8'
    } else {
        '9'
    }
}

pub open spec fn all_digits(s: Seq<char>) -> bool {
    forall|i: int| 0 <= i < s.len() ==> is_digit_char(s[i])
}

/// The numeric value of a string of decimal digits, most significant first.
pub open spec fn dec_value(s: Seq<char>) -> nat
    decreases s.len(),
{
    if s.len() == 0 {
        0
    } else {
        dec_value(s.drop_last()) * 10 + digit_val(s.last())
    }
}

pub open spec fn pow10(k: nat) -> nat
    decreases k,
{
    if k == 0 {
        1
    } else {
        10 * pow10((k - 1) as nat)
    }
}

/// The canonical `width`-digit, zero-padded decimal rendering of `n % pow10(width)`.
pub open spec fn dec_rep(n: nat, width: nat) -> Seq<char>
    decreases width,
{
    if width == 0 {
        Seq::empty()
    } else {
        dec_rep(n / 10, (width - 1) as nat).push(digit_char(n % 10))
    }
}

pub proof fn lemma_pow10_pos(k: nat)
    ensures
        pow10(k) >= 1,
    decreases k,
{
    if k > 0 {
        lemma_pow10_pos((k - 1) as nat);
    }
}

pub proof fn lemma_pow10_monotone(a: nat, b: nat)
    requires
        a <= b,
    ensures
        pow10(a) <= pow10(b),
    decreases b,
{
    if a < b {
        lemma_pow10_monotone(a, (b - 1) as nat);
        lemma_pow10_pos((b - 1) as nat);
    }
}

pub proof fn lemma_pow10_20()
    ensures
        pow10(20) == 100_000_000_000_000_000_000,
{
    reveal_with_fuel(pow10, 21);
}

pub proof fn lemma_digit_char_val(d: nat)
    requires
        d < 10,
    ensures
        is_digit_char(digit_char(d)),
        digit_val(digit_char(d)) == d,
{
}

/// The canonical rendering has the announced width, holds only digits, and
/// reads back as the value it was made from.
pub proof fn lemma_dec_rep_props(n: nat, width: nat)
    ensures
        dec_rep(n, width).len() == width,
        all_digits(dec_rep(n, width)),
        dec_value(dec_rep(n, width)) == n % pow10(width),
    decreases width,
{
    if width == 0 {
        assert(n % pow10(0) == 0) by {
            lemma_small_mod(0, 1);
        }
    } else {
        lemma_dec_rep_props(n / 10, (width - 1) as nat);
        lemma_digit_char_val(n % 10);
        let rest = dec_rep(n / 10, (width - 1) as nat);
        let c = digit_char(n % 10);
        assert(rest.push(c).drop_last() =~= rest);
        assert(rest.push(c).last() == c);
        assert(dec_value(dec_rep(n, width)) == dec_value(rest) * 10 + (n % 10));
        lemma_pow10_pos((width - 1) as nat);
        lemma_mod_breakdown(n as int, 10, pow10((width - 1) as nat) as int);
    }
}

fn digit_to_char(d: u8) -> (c: char)
    requires
        d < 10,
    ensures
        c == digit_char(d as nat),
{
    if d == 0 {
        '0'
    } else if d == 1 {
        '1'
    } else if d == 2 {
        '2'
    } else if d == 3 {
        '3'
    } else if d == 4 {
        '4'
    } else if d == 5 {
        '5'
    } else if d == 6 {
        '6'
    } else if d == 7 {
        '7'
    } else if d == 8 {
        '8'
    } else {
        '9'
    }
}

/// Render `n` as exactly `width` decimal digits, left-padded with zeros.
pub fn to_fixed_decimal(n: u64, width: usize) -> (r: String)
    requires
        (n as nat) < pow10(width as nat),
    ensures
        r@ == dec_rep(n as nat, width as nat),
        r@.len() == width,
        all_digits(r@),
        dec_value(r@) == n as nat,
{
    proof {
        lemma_div_basics(n as int);
        assert((n as nat) / pow10(0) == n as nat);
    }
    let mut digits: Vec<u8> = Vec::new();
    let mut m: u64 = n;
    let mut k: usize = 0;
    while k < width
        invariant
            k <= width,
            digits@.len() == k,
            m as nat == (n as nat) / pow10(k as nat),
            forall|j: int|
                0 <= j < k ==> digits@[j] < 10 && digits@[j] as nat == ((n as nat) / pow10(
                    j as nat,
                )) % 10,
        decreases width - k,
    {
        let d: u8 = (m % 10) as u8;
        digits.push(d);
        proof {
            lemma_pow10_pos(k as nat);
            lemma_div_denominator(n as int, pow10(k as nat) as int, 10);
            assert(pow10((k + 1) as nat) == 10 * pow10(k as nat));
        }
        m = m / 10;
        k = k + 1;
    }
    let mut r = String::new();
    let mut i: usize = width;
    while i > 0
        invariant
            i <= width,
            digits@.len() == width,
            forall|j: int|
                0 <= j < width ==> digits@[j] < 10 && digits@[j] as nat == ((n as nat) / pow10(
                    j as nat,
                )) % 10,
            r@ == dec_rep((n as nat) / pow10(i as nat), (width - i) as nat),
        decreases i,
    {
        i = i - 1;
        let c = digit_to_char(digits[i]);
        push_char(&mut r, c);
        proof {
            lemma_pow10_pos(i as nat);
            lemma_div_denominator(n as int, pow10(i as nat) as int, 10);
            assert(pow10((i + 1) as nat) == 10 * pow10(i as nat));
        }
    }
    proof {
        lemma_div_basics(n as int);
        assert((n as nat) / pow10(0) == n as nat);
        lemma_dec_rep_props(n as nat, width as nat);
        lemma_pow10_pos(width as nat);
        lemma_small_mod(n as nat, pow10(width as nat));
    }
    r
}

/// Read a string of exactly 20 decimal digits back as a number; rejects
/// anything of another length or holding another character.
pub fn parse_decimal20(s: &str) -> (r: Option<u128>)
    ensures
        (s@.len() == 20 && all_digits(s@)) ==> (r matches Some(v) && v as nat == dec_value(s@)),
        !(s@.len() == 20 && all_digits(s@)) ==> r is None,
{
    let len = s.unicode_len();
    if len != 20 {
        return None;
    }
    let mut v: u128 = 0;
    let mut i: usize = 0;
    while i < 20
        invariant
            i <= 20,
            s@.len() == 20,
            all_digits(s@.take(i as int)),
            v as nat == dec_value(s@.take(i as int)),
            (v as nat) < pow10(i as nat),
        decreases 20 - i,
    {
        let c = s.get_char(i);
        let u = c as u32;
        if u < 48 || u > 57 {
            assert(!is_digit_char(s@[i as int]));
            return None;
        }
        let d: u128 = (u - 48) as u128;
        proof {
            lemma_pow10_monotone(i as nat, 19);
            lemma_pow10_20();
            assert(pow10((i + 1) as nat) == 10 * pow10(i as nat));
            assert((v as nat) * 10 + (d as nat) < pow10(i as nat) * 10) by (nonlinear_arith)
                requires
                    (v as nat) < pow10(i as nat),
                    (d as nat) <= 9,
            ;
            assert(pow10(i as nat) * 10 <= pow10(19) * 10) by (nonlinear_arith)
                requires
                    pow10(i as nat) <= pow10(19),
            ;
            assert(s@.take(i + 1).drop_last() =~= s@.take(i as int));
            assert(s@.take(i + 1).last() == s@[i as int]);
        }
        v = v * 10 + d;
        i = i + 1;
    }
    proof {
        assert(s@.take(20) =~= s@);
    }
    Some(v)
}

/// Whether a string consists of decimal digits only.
pub fn check_all_digits(s: &str) -> (r: bool)
    ensures
        r == all_digits(s@),
{
    let len = s.unicode_len();
    let mut i: usize = 0;
    while i < len
        invariant
            i <= len,
            len == s@.len(),
            forall|j: int| 0 <= j < i ==> is_digit_char(s@[j]),
        decreases len - i,
    {
        let u = s.get_char(i) as u32;
        if u < 48 || u > 57 {
            assert(!is_digit_char(s@[i as int]));
            return false;
        }
        i = i + 1;
    }
    true
}

pub open spec fn hex_char(d: nat) -> char {
    if d == 0 {
        '0'
    } else if d == 1 {
        '1'
    } else if d == 2 {
        '2'
    } else if d == 3 {
        '3'
    } else if d == 4 {
        '4'
    } else if d == 5 {
        '5'
    } else if d == 6 {
        '6'
    } else if d == 7 {
        '7'
    } else if d == 8 {
        '8'
    } else if d == 9 {
        '9'
    } else if d == 10 {
        'a'
    } else if d == 11 {
        'b'
    } else if d == 12 {
        'c'
    } else if d == 13 {
        'd'
    } else if d == 14 {
        'e'
    } else {
        'f'
    }
}

/// The lower-case hex rendering of a byte string, two characters per byte.
pub open spec fn hex_of_bytes(s: Seq<u8>) -> Seq<char>
    decreases s.len(),
{
    if s.len() == 0 {
        Seq::empty()
    } else {
        hex_of_bytes(s.drop_last()).push(hex_char((s.last() / 16) as nat)).push(
            hex_char((s.last() % 16) as nat),
        )
    }
}

fn hex_to_char(d: u8) -> (c: char)
    requires
        d < 16,
    ensures
        c == hex_char(d as nat),
{
    if d < 10 {
        digit_to_char(d)
    } else if d == 10 {
        'a'
    } else if d == 11 {
        'b'
    } else if d == 12 {
        'c'
    } else if d == 13 {
        'd'
    } else if d == 14 {
        'e'
    } else {
        'f'
    }
}

/// Render a byte string in lower-case hex.
pub fn bytes_to_hex(b: &[u8]) -> (r: String)
    ensures
        r@ == hex_of_bytes(b@),
        r@.len() == 2 * b@.len(),
{
    let len = b.len();
    let mut r = String::new();
    let mut i: usize = 0;
    while i < len
        invariant
            i <= len,
            len == b@.len(),
            r@ == hex_of_bytes(b@.take(i as int)),
            r@.len() == 2 * i,
        decreases len - i,
    {
        let byte = b[i];
        let hi = byte / 16;
        let lo = byte % 16;
        push_char(&mut r, hex_to_char(hi));
        push_char(&mut r, hex_to_char(lo));
        proof {
            assert(b@.take(i + 1).drop_last() =~= b@.take(i as int));
            assert(b@.take(i + 1).last() == b@[i as int]);
        }
        i = i + 1;
    }
    proof {
        assert(b@.take(len as int) =~= b@);
    }
    r
}

} // verus!
