use vstd::prelude::*;

verus! {

/// The ASCII character of a decimal digit.
pub open spec fn digit_char(d: nat) -> char {
    seq!['0', '1', '2', '3', '4', '5', '6', '7', '8', '9'][d as int]
}

/// The value of an ASCII decimal digit character.
pub open spec fn digit_value(c: char) -> nat {
    if c == '1' { 1 }
    else if c == '2' { 2 }
    else if c == '3' { 3 }
    else if c == '4' { 4 }
    else if c == '5' { 5 }
    else if c == '6' { 6 }
    else if c == '7' { 7 }
    else if c == '8' { 8 }
    else if c == '9' { 9 }
    else { 0 }
}

/// `n` written in decimal with leading zeros up to at least `width` digits,
/// as `format!("{n:0width$}")` renders it: the last digit is `n % 10`, the
/// digits before it are `n / 10` padded to `width - 1`.
pub open spec fn zero_padded(n: nat, width: nat) -> Seq<char>
    decreases n + width,
{
    if n < 10 && width <= 1 {
        seq![digit_char(n)]
    } else {
        let w: nat = if width == 0 { 0 } else { (width - 1) as nat };
        zero_padded(n / 10, w).push(digit_char(n % 10))
    }
}

/// The number that a string of decimal digits denotes.
pub open spec fn decimal_value(s: Seq<char>) -> nat
    decreases s.len(),
{
    if s.len() == 0 {
        0
    } else {
        decimal_value(s.drop_last()) * 10 + digit_value(s.last())
    }
}

proof fn lemma_digit_round_trip(d: nat)
    requires
        d < 10,
    ensures
        digit_value(digit_char(d)) == d,
{
}

/// Reading back a zero-padded rendering gives the number it was made from.
pub proof fn lemma_zero_padded_value(n: nat, width: nat)
    ensures
        decimal_value(zero_padded(n, width)) == n,
    decreases n + width,
{
    if n < 10 && width <= 1 {
        lemma_digit_round_trip(n);
        let s = seq![digit_char(n)];
        assert(s.drop_last() =~= Seq::<char>::empty());
        assert(decimal_value(s) == decimal_value(s.drop_last()) * 10 + digit_value(s.last()));
    } else {
        let w: nat = if width == 0 { 0 } else { (width - 1) as nat };
        lemma_zero_padded_value(n / 10, w);
        lemma_digit_round_trip(n % 10);
        let s = zero_padded(n / 10, w).push(digit_char(n % 10));
        assert(s.drop_last() =~= zero_padded(n / 10, w));
        assert(s.last() == digit_char(n % 10));
        assert(decimal_value(s) == decimal_value(s.drop_last()) * 10 + digit_value(s.last()));
        assert(n == (n / 10) * 10 + n % 10);
    }
}

/// Zero-padded renderings of different numbers differ, whatever the widths.
pub proof fn lemma_zero_padded_injective(a: nat, b: nat, width: nat)
    requires
        a != b,
    ensures
        zero_padded(a, width) != zero_padded(b, width),
{
    lemma_zero_padded_value(a, width);
    lemma_zero_padded_value(b, width);
}

fn digit_of(d: u64) -> (c: char)
    requires
        d < 10,
    ensures
        c == digit_char(d as nat),
{
    if d == 0 { '0' }
    else if d == 1 { '1' }
    else if d == 2 { '2' }
    else if d == 3 { '3' }
    else if d == 4 { '4' }
    else if d == 5 { '5' }
    else if d == 6 { '6' }
    else if d == 7 { '7' }
    else if d == 8 { '8' }
    else { '9' }
}

/// The digits of `n`, zero-padded to at least `width` characters.
pub fn zero_padded_digits(n: u64, width: u64) -> (r: Vec<char>)
    ensures
        r@ == zero_padded(n as nat, width as nat),
{
    let mut m: u64 = n;
    let mut w: u64 = width;
    let mut acc: Vec<char> = Vec::new();
    while !(m < 10 && w <= 1)
        invariant
            zero_padded(n as nat, width as nat) == zero_padded(m as nat, w as nat) + acc@,
        decreases m + w,
    {
        let c = digit_of(m % 10);
        let ghost before = acc@;
        acc.insert(0, c);
        let next_w: u64 = if w == 0 { 0 } else { w - 1 };
        proof {
            assert(acc@ =~= seq![c] + before);
            assert(zero_padded(m as nat, w as nat) == zero_padded((m / 10) as nat, next_w as nat).push(c));
            assert(zero_padded((m / 10) as nat, next_w as nat).push(c) + before
                =~= zero_padded((m / 10) as nat, next_w as nat) + acc@);
        }
        m = m / 10;
        w = next_w;
    }
    let c = digit_of(m);
    let ghost before = acc@;
    acc.insert(0, c);
    assert(acc@ =~= seq![c] + before);
    acc
}

} // verus!
