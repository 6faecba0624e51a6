//! Decimal text of integers, built from verified pieces.
use vstd::prelude::*;

verus! {

/// The digit character of `d`, for `d < 10`.
pub open spec fn digit_char(d: nat) -> char {
    if d == 0 { '0' } else if d == 1 { '1' } else if d == 2 { '2' } else if d == 3 { '3' }
    else if d == 4 { '4' } else if d == 5 { '5' } else if d == 6 { '6' } else if d == 7 { '7' }
    else if d == 8 { '8' } else { '9' }
}

pub open spec fn is_digit(c: char) -> bool {
    '0' <= c && c <= '9'
}

/// Decimal text of `n`, most significant digit first, without leading zeros.
pub open spec fn decimal(n: nat) -> Seq<char>
    decreases n,
{
    if n < 10 {
        seq![digit_char(n)]
    } else {
        decimal(n / 10).push(digit_char(n % 10))
    }
}

/// Decimal text of `n` padded with leading zeros to at least `w` digits.
pub open spec fn padded(n: nat, w: nat) -> Seq<char> {
    let d = decimal(n);
    if d.len() >= w {
        d
    } else {
        Seq::new((w - d.len()) as nat, |i: int| '0') + d
    }
}

/// Decimal text of a signed integer.
pub open spec fn signed_decimal(v: int) -> Seq<char> {
    if v < 0 {
        seq!['-'] + decimal((-v) as nat)
    } else {
        decimal(v as nat)
    }
}

pub proof fn lemma_decimal_digits(n: nat)
    ensures
        decimal(n).len() >= 1,
        forall|i: int| 0 <= i < decimal(n).len() ==> is_digit(#[trigger] decimal(n)[i]),
    decreases n,
{
    if n >= 10 {
        lemma_decimal_digits(n / 10);
    }
}

fn digit_str(d: u64) -> (r: &'static str)
    requires
        d < 10,
    ensures
        r@ == seq![digit_char(d as nat)],
{
    proof {
        reveal_strlit("0");
        reveal_strlit("1");
        reveal_strlit("2");
        reveal_strlit("3");
        reveal_strlit("4");
        reveal_strlit("5");
        reveal_strlit("6");
        reveal_strlit("7");
        reveal_strlit("8");
        reveal_strlit("9");
    }
    if d == 0 { "0" } else if d == 1 { "1" } else if d == 2 { "2" } else if d == 3 { "3" }
    else if d == 4 { "4" } else if d == 5 { "5" } else if d == 6 { "6" } else if d == 7 { "7" }
    else if d == 8 { "8" } else { "9" }
}

/// Decimal text of `n`.
pub fn decimal_text(n: u64) -> (r: String)
    ensures
        r@ == decimal(n as nat),
    decreases n,
{
    if n < 10 {
        String::from_str(digit_str(n))
    } else {
        let mut s = decimal_text(n / 10);
        s.append(digit_str(n % 10));
        s
    }
}

pub proof fn lemma_decimal_len(n: nat)
    ensures
        n < 10 ==> decimal(n).len() == 1,
        10 <= n < 100 ==> decimal(n).len() == 2,
        100 <= n < 1000 ==> decimal(n).len() == 3,
        1000 <= n < 10000 ==> decimal(n).len() == 4,
        10000 <= n < 100000 ==> decimal(n).len() == 5,
        100000 <= n < 1000000 ==> decimal(n).len() == 6,
    decreases n,
{
    if n >= 10 {
        lemma_decimal_len(n / 10);
    }
}

/// Decimal text of `n` with leading zeros up to six digits.
pub fn six_digit_text(n: u64) -> (r: String)
    requires
        n < 1000000,
    ensures
        r@ == padded(n as nat, 6),
        r@.len() == 6,
{
    proof {
        lemma_decimal_len(n as nat);
        reveal_strlit("0");
    }
    let zeros: usize = if n < 10 {
        5
    } else if n < 100 {
        4
    } else if n < 1000 {
        3
    } else if n < 10000 {
        2
    } else if n < 100000 {
        1
    } else {
        0
    };
    let mut s = String::new();
    let mut i: usize = 0;
    while i < zeros
        invariant
            i <= zeros,
            s@ == Seq::new(i as nat, |k: int| '0'),
        decreases zeros - i,
    {
        proof { reveal_strlit("0"); }
        s.append("0");
        i = i + 1;
        assert(s@ =~= Seq::new(i as nat, |k: int| '0'));
    }
    let d = decimal_text(n);
    s.append(d.as_str());
    assert(s@ =~= padded(n as nat, 6));
    s
}

/// Decimal text of a signed integer.
pub fn signed_decimal_text(v: i64) -> (r: String)
    ensures
        r@ == signed_decimal(v as int),
{
    if v < 0 {
        proof { reveal_strlit("-"); }
        let m: u64 = if v == i64::MIN { 9223372036854775808u64 } else { (-v) as u64 };
        let mut s = String::from_str("-");
        let d = decimal_text(m);
        s.append(d.as_str());
        s
    } else {
        decimal_text(v as u64)
    }
}

} // verus!
