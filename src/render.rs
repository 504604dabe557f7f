use vstd::prelude::*;

verus! {

/// Relies on `String::push`: the character is appended at the end.
pub assume_specification[ String::push ](s: &mut String, ch: char)
    ensures
        final(s)@ == old(s)@.push(ch),
;

/// The ASCII character for a decimal digit.
pub open spec fn digit_char(d: nat) -> char {
    (48 + d) as char
}

/// Decimal representation of a natural number, most significant digit first.
pub open spec fn decimal(n: nat) -> Seq<char>
    decreases n,
{
    if n < 10 {
        seq![digit_char(n)]
    } else {
        decimal(n / 10).push(digit_char(n % 10))
    }
}

/// `s` left-padded with '0' up to `width` characters.
pub open spec fn zero_padded(s: Seq<char>, width: nat) -> Seq<char> {
    if s.len() >= width {
        s
    } else {
        Seq::new((width - s.len()) as nat, |i: int| '0') + s
    }
}

/// Decimal representation of `n`, left-padded with '0' to `width` characters.
pub open spec fn padded_decimal(n: nat, width: nat) -> Seq<char> {
    zero_padded(decimal(n), width)
}

/// Ten to the power `k`.
pub open spec fn tenpow(k: nat) -> nat
    decreases k,
{
    if k == 0 {
        1
    } else {
        10 * tenpow((k - 1) as nat)
    }
}

/// A number with at least two digits is at least ten to the power of its digit count less one.
pub proof fn lemma_decimal_lower(n: nat)
    ensures
        decimal(n).len() >= 1,
        decimal(n).len() >= 2 ==> n >= tenpow((decimal(n).len() - 1) as nat),
    decreases n,
{
    if n >= 10 {
        lemma_decimal_lower(n / 10);
        let k = decimal(n / 10).len();
        assert(decimal(n).len() == k + 1);
        if k >= 2 {
            let p = tenpow((k - 1) as nat);
            assert(tenpow(k) == 10 * p);
            assert(n >= 10 * p) by (nonlinear_arith)
                requires n / 10 >= p, n >= 10;
        } else {
            assert(tenpow(1) == 10 * tenpow(0));
        }
    }
}

/// Number of decimal digits of `n`.
pub fn decimal_len(n: u64) -> (r: usize)
    ensures
        r == decimal(n as nat).len(),
        1 <= r <= 20,
    decreases n,
{
    if n < 10 {
        1
    } else {
        let k = decimal_len(n / 10);
        if k >= 20 {
            proof {
                lemma_decimal_lower((n / 10) as nat);
                lemma_tenpow_monotone(19, (k - 1) as nat);
                reveal_with_fuel(tenpow, 20);
                assert(tenpow(19) == 10_000_000_000_000_000_000);
            }
        }
        k + 1
    }
}

pub proof fn lemma_tenpow_monotone(a: nat, b: nat)
    requires
        a <= b,
    ensures
        1 <= tenpow(a) <= tenpow(b),
    decreases b,
{
    if b > 0 {
        if a < b {
            lemma_tenpow_monotone(a, (b - 1) as nat);
        } else {
            lemma_tenpow_monotone((a - 1) as nat, (b - 1) as nat);
        }
    }
}

/// Appends the decimal representation of `n`.
pub fn push_decimal(s: &mut String, n: u64)
    ensures
        final(s)@ == old(s)@ + decimal(n as nat),
    decreases n,
{
    if n >= 10 {
        push_decimal(s, n / 10);
    }
    let d = (n % 10) as u32;
    s.push(char_of_digit(d));
    proof {
        assert(old(s)@ + decimal(n as nat) =~= final(s)@);
    }
}

/// The character of a decimal digit.
pub fn char_of_digit(d: u32) -> (c: char)
    requires
        d < 10,
    ensures
        c == digit_char(d as nat),
{
    if d == 0 { '0' }
    else if d == 1 { '1' }
    else if d == 2 { '2' }
    else if d == 3 { '3' }
    else if d == 4 { '4' }
    else if d == 5 { '5' }
    else if d == 6 { '6' }
    else if d == 7 { '7' }
    else if d == 8 { '8' }
    else { '9' }
}

/// Appends the decimal representation of `n`, left-padded with '0' to `width` characters.
pub fn push_padded(s: &mut String, n: u64, width: usize)
    ensures
        final(s)@ == old(s)@ + padded_decimal(n as nat, width as nat),
{
    let len = decimal_len(n);
    let ghost start = s@;
    if len < width {
        let mut i: usize = len;
        while i < width
            invariant
                len <= i <= width,
                s@ == start + Seq::new((i - len) as nat, |j: int| '0'),
            decreases width - i,
        {
            s.push('0');
            i = i + 1;
            proof {
                assert(s@ =~= start + Seq::new((i - len) as nat, |j: int| '0'));
            }
        }
    }
    push_decimal(s, n);
    proof {
        assert(s@ =~= start + padded_decimal(n as nat, width as nat));
    }
}

} // verus!
