//! Decimal text of integers and of fixed-point decimals.
use vstd::prelude::*;

verus! {

pub open spec fn digit_char(d: int) -> char {
    if d == 0 { '0' } else if d == 1 { '1' } else if d == 2 { '2' } else if d == 3 { '3' }
    else if d == 4 { '4' } else if d == 5 { '5' } else if d == 6 { '6' } else if d == 7 { '7' }
    else if d == 8 { '8' } else { '9' }
}

pub open spec fn is_digit(c: char) -> bool {
    '0' <= c && c <= '9'
}

/// The decimal digits of `n`, most significant first, without leading zeros.
pub open spec fn nat_text(n: nat) -> Seq<char>
    decreases n,
{
    if n < 10 {
        seq![digit_char(n as int)]
    } else {
        nat_text(n / 10).push(digit_char((n % 10) as int))
    }
}

/// The decimal text of `i`, with a leading `-` when it is negative.
pub open spec fn int_text(i: int) -> Seq<char> {
    if i < 0 {
        seq!['-'] + nat_text((-i) as nat)
    } else {
        nat_text(i as nat)
    }
}

/// A decimal number `units / 10^scale`, the library's stand-in for a
/// floating-point literal.
#[derive(Clone, Copy, Debug)]
pub struct Decimal {
    pub units: i64,
    pub scale: u8,
}

pub open spec fn zeros(n: int) -> Seq<char> {
    Seq::new(if n < 0 { 0 } else { n as nat }, |i: int| '0')
}

/// `s` without its trailing zeros.
pub open spec fn trim_zeros(s: Seq<char>) -> Seq<char>
    decreases s.len(),
{
    if s.len() > 0 && s.last() == '0' {
        trim_zeros(s.drop_last())
    } else {
        s
    }
}

/// The digits of `|units|`, left-padded with zeros so that at least one
/// digit stands before the decimal point.
pub open spec fn padded_digits(d: Decimal) -> Seq<char> {
    let digits = nat_text(if d.units < 0 { (-d.units) as nat } else { d.units as nat });
    zeros(d.scale + 1 - digits.len()) + digits
}

/// The shortest text of a decimal: no trailing zeros after the point, and
/// no point when the fraction is zero (`170 / 10^2` reads `1.7`).
pub open spec fn decimal_text(d: Decimal) -> Seq<char> {
    let sign = if d.units < 0 { seq!['-'] } else { Seq::<char>::empty() };
    let padded = padded_digits(d);
    let cut = padded.len() - d.scale;
    let frac = trim_zeros(padded.subrange(cut, padded.len() as int));
    if frac.len() == 0 {
        sign + padded.subrange(0, cut)
    } else {
        sign + padded.subrange(0, cut) + seq!['.'] + frac
    }
}

pub proof fn lemma_nat_text_digits(n: nat)
    ensures
        nat_text(n).len() >= 1,
        forall|k: int| 0 <= k < nat_text(n).len() ==> is_digit(#[trigger] nat_text(n)[k]),
    decreases n,
{
    if n >= 10 {
        lemma_nat_text_digits(n / 10);
    }
}

fn digit_str(d: u128) -> (r: &'static str)
    requires
        d < 10,
    ensures
        r@ == seq![digit_char(d as int)],
{
    proof {
        reveal_strlit("0");
        reveal_strlit("1");
        reveal_strlit("2");
        reveal_strlit("3");
        reveal_strlit("4");
        reveal_strlit("5");
        reveal_strlit("6");
        reveal_strlit("7");
        reveal_strlit("8");
        reveal_strlit("9");
    }
    let r = if d == 0 { "0" } else if d == 1 { "1" } else if d == 2 { "2" } else if d == 3 { "3" }
        else if d == 4 { "4" } else if d == 5 { "5" } else if d == 6 { "6" } else if d == 7 { "7" }
        else if d == 8 { "8" } else { "9" };
    assert(r@ =~= seq![digit_char(d as int)]);
    r
}

/// The decimal digits of `n`.
pub fn nat_to_text(n: u128) -> (r: String)
    ensures
        r@ == nat_text(n as nat),
    decreases n,
{
    if n < 10 {
        String::from_str(digit_str(n))
    } else {
        let mut r = nat_to_text(n / 10);
        r.append(digit_str(n % 10));
        r
    }
}

/// The decimal text of `n`.
pub fn int_to_text(n: i128) -> (r: String)
    ensures
        r@ == int_text(n as int),
{
    if n < 0 {
        let magnitude: u128 = (-(n + 1)) as u128 + 1;
        let digits = nat_to_text(magnitude);
        let mut r = String::from_str("-");
        proof {
            reveal_strlit("-");
        }
        r.append(digits.as_str());
        assert(r@ =~= int_text(n as int));
        r
    } else {
        nat_to_text(n as u128)
    }
}

proof fn lemma_trim_zeros_at(s: Seq<char>, n: int)
    requires
        0 <= n <= s.len(),
        forall|k: int| n <= k < s.len() ==> s[k] == '0',
        n == 0 || s[n - 1] != '0',
    ensures
        trim_zeros(s) == s.subrange(0, n),
    decreases s.len(),
{
    if s.len() > n {
        assert(s.last() == '0');
        lemma_trim_zeros_at(s.drop_last(), n);
        assert(s.drop_last().subrange(0, n) =~= s.subrange(0, n));
    } else {
        assert(s.subrange(0, n) =~= s);
        if s.len() > 0 {
            assert(s.last() == s[n - 1]);
        }
    }
}

impl Decimal {
    pub fn new(units: i64, scale: u8) -> (r: Decimal)
        ensures
            r.units == units,
            r.scale == scale,
    {
        Decimal { units, scale }
    }

    /// The shortest decimal text of the number.
    pub fn to_string(&self) -> (r: String)
        ensures
            r@ == decimal_text(*self),
    {
        let negative = self.units < 0;
        let magnitude: u128 = if negative {
            (-(self.units as i128)) as u128
        } else {
            self.units as u128
        };
        let digits = nat_to_text(magnitude);
        let nd = digits.as_str().unicode_len();
        let scale = self.scale as usize;
        let mut padded = String::new();
        proof {
            reveal_strlit("0");
        }
        if nd < scale + 1 {
            let mut k: usize = 0;
            while k < scale + 1 - nd
                invariant
                    scale <= 255,
                    nd < scale + 1,
                    k <= scale + 1 - nd,
                    padded@ == zeros(k as int),
                decreases scale + 1 - nd - k,
            {
                proof {
                    reveal_strlit("0");
                }
                padded.append("0");
                assert(padded@ =~= zeros(k + 1));
                k = k + 1;
            }
        }
        padded.append(digits.as_str());
        assert(padded@ =~= padded_digits(*self));
        let total = padded.as_str().unicode_len();
        let cut = total - scale;
        let whole = padded.as_str().substring_char(0, cut);
        let tail = padded.as_str().substring_char(cut, total);
        // the fraction keeps its digits up to the last one that is not zero
        let mut keep: usize = scale;
        while keep > 0 && tail.get_char(keep - 1) == '0'
            invariant
                tail@.len() == scale,
                keep <= scale,
                forall|k: int| keep <= k < scale ==> tail@[k] == '0',
            decreases keep,
        {
            keep = keep - 1;
        }
        proof {
            lemma_trim_zeros_at(tail@, keep as int);
        }
        let mut r = String::new();
        if negative {
            proof {
                reveal_strlit("-");
            }
            r.append("-");
        }
        r.append(whole);
        if keep > 0 {
            proof {
                reveal_strlit(".");
            }
            r.append(".");
            r.append(tail.substring_char(0, keep));
        }
        assert(r@ =~= decimal_text(*self));
        r
    }
}

} // verus!
