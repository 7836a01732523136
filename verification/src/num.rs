//! Decimal rendering of integers, used for JSON number emission and for
//! generated column names.

use vstd::prelude::*;

verus! {

/// The decimal digit character for `d % 10`.
pub open spec fn dec_digit(d: nat) -> char {
    (((d % 10) + 48) as u8) as char
}

/// The decimal digits of `n`, most significant first, with no sign and no
/// leading zeros (except for `n == 0`, which is `"0"`).
pub open spec fn dec_chars(n: nat) -> Seq<char>
    decreases n,
{
    if n < 10 {
        seq![dec_digit(n)]
    } else {
        dec_chars(n / 10).push(dec_digit(n % 10))
    }
}

/// The decimal rendering of a possibly negative integer: a `-` sign followed
/// by the digits of the absolute value.
pub open spec fn int_dec_chars(v: int) -> Seq<char> {
    if v >= 0 {
        dec_chars(v as nat)
    } else {
        seq!['-'] + dec_chars((-v) as nat)
    }
}

fn digit_str(d: u64) -> (r: &'static str)
    requires
        d < 10,
    ensures
        r@ =~= seq![dec_digit(d as nat)],
{
    proof {
        reveal_strlit("0");
        reveal_strlit("1");
        reveal_strlit("2");
        reveal_strlit("3");
        reveal_strlit("4");
        reveal_strlit("5");
        reveal_strlit("6");
        reveal_strlit("7");
        reveal_strlit("8");
        reveal_strlit("9");
    }
    match d {
        0 => "0",
        1 => "1",
        2 => "2",
        3 => "3",
        4 => "4",
        5 => "5",
        6 => "6",
        7 => "7",
        8 => "8",
        _ => "9",
    }
}

/// Renders `n` in decimal.
pub fn u64_dec_string(n: u64) -> (r: String)
    ensures
        r@ == dec_chars(n as nat),
    decreases n,
{
    if n < 10 {
        String::from_str(digit_str(n))
    } else {
        let mut s = u64_dec_string(n / 10);
        s.append(digit_str(n % 10));
        assert(s@ =~= dec_chars(n as nat));
        s
    }
}

/// Renders a signed layer id in decimal, `-` first when negative.
pub fn i32_dec_string(v: i32) -> (r: String)
    ensures
        r@ == int_dec_chars(v as int),
{
    if v >= 0 {
        u64_dec_string(v as u64)
    } else {
        proof {
            reveal_strlit("-");
        }
        let mag: u64 = (-(v as i64)) as u64;
        let mut s = String::from_str("-");
        let digits = u64_dec_string(mag);
        s.append(digits.as_str());
        assert(s@ =~= int_dec_chars(v as int));
        s
    }
}

} // verus!

verus! {

/// The number a digit string denotes, most significant digit first.
pub open spec fn dec_value(s: Seq<char>) -> int
    decreases s.len(),
{
    if s.len() == 0 {
        0
    } else {
        10 * dec_value(s.drop_last()) + ((s.last() as u32) as int - 48)
    }
}

/// Decimal rendering is lossless: parsing the digits of `n` yields `n`.
/// Documents that entity ids survive the trip through their rendering.
pub proof fn lemma_dec_chars_value(n: nat)
    ensures
        dec_value(dec_chars(n)) == n,
    decreases n,
{
    if n < 10 {
        let s = dec_chars(n);
        assert(s =~= seq![dec_digit(n)]);
        assert(s.len() == 1);
        assert(s.drop_last() =~= Seq::<char>::empty());
        assert(dec_value(s.drop_last()) == 0);
        assert(s.last() == dec_digit(n));
        assert(n % 10 == n);
        assert(((dec_digit(n) as u32) as int) == 48 + n);
        assert(dec_value(s) == 10 * dec_value(s.drop_last()) + ((s.last() as u32) as int - 48));
    } else {
        lemma_dec_chars_value(n / 10);
        assert(dec_chars(n).drop_last() =~= dec_chars(n / 10));
        assert(dec_chars(n).last() == dec_digit(n % 10));
        assert(((dec_digit(n % 10) as u32) as int) == 48 + (n % 10) as int);
        assert(10 * (n / 10) + n % 10 == n) by (nonlinear_arith);
    }
}

/// No two numbers share a rendering.
pub proof fn lemma_dec_chars_injective(a: nat, b: nat)
    requires
        dec_chars(a) == dec_chars(b),
    ensures
        a == b,
{
    lemma_dec_chars_value(a);
    lemma_dec_chars_value(b);
}

} // verus!

verus! {

/// Every character of a decimal rendering is a digit.
pub proof fn lemma_dec_chars_digits(n: nat)
    ensures
        forall|i: int|
            0 <= i < dec_chars(n).len() ==> 48 <= (#[trigger] dec_chars(n)[i] as u32) <= 57,
    decreases n,
{
    if n < 10 {
        assert(dec_chars(n) =~= seq![dec_digit(n)]);
    } else {
        lemma_dec_chars_digits(n / 10);
        assert(forall|i: int|
            0 <= i < dec_chars(n / 10).len() ==> dec_chars(n)[i] == dec_chars(n / 10)[i]);
        assert(dec_chars(n).last() == dec_digit(n % 10));
    }
}

/// The integer a signed decimal rendering denotes.
pub open spec fn int_dec_value(s: Seq<char>) -> int {
    if s.len() > 0 && s[0] == '-' {
        -dec_value(s.drop_first())
    } else {
        dec_value(s)
    }
}

/// Signed decimal rendering is lossless too: layer ids survive the trip
/// through their rendering.
pub proof fn lemma_int_dec_chars_value(v: int)
    ensures
        int_dec_value(int_dec_chars(v)) == v,
{
    if v >= 0 {
        lemma_dec_chars_value(v as nat);
        lemma_dec_chars_digits(v as nat);
        assert(dec_chars(v as nat).len() > 0);
        assert((dec_chars(v as nat)[0] as u32) != 45);
        assert(dec_chars(v as nat)[0] != '-');
    } else {
        lemma_dec_chars_value((-v) as nat);
        let s = int_dec_chars(v);
        assert(s[0] == '-');
        assert(s.drop_first() =~= dec_chars((-v) as nat));
    }
}

} // verus!
