//! Decimal fixed-point readings (a wattage, a temperature) and their text.
use vstd::prelude::*;

verus! {

/// The character of a decimal digit `d < 10`.
pub open spec fn digit_char(d: nat) -> char {
    if d == 0 {
        '0'
    } else if d == 1 {
        '1'
    } else if d == 2 {
        '2'
    } else if d == 3 {
        '3'
    } else if d == 4 {
        '4'
    } else if d == 5 {
        '5'
    } else if d == 6 {
        '6'
    } else if d == 7 {
        '7'
    } else if d == 8 {
        '8'
    } else {
        '9'
    }
}

/// The decimal digits of `n`, most significant first, without leading zeros
/// (zero is written `0`).
pub open spec fn digits_of(n: nat) -> Seq<char>
    decreases n,
{
    if n < 10 {
        seq![digit_char(n)]
    } else {
        digits_of(n / 10).push(digit_char(n % 10))
    }
}

/// The last `width` decimal digits of `n`, most significant first, with
/// leading zeros where `n` has fewer digits.
pub open spec fn low_digits(n: nat, width: nat) -> Seq<char>
    decreases width,
{
    if width == 0 {
        Seq::empty()
    } else {
        low_digits(n / 10, (width - 1) as nat).push(digit_char(n % 10))
    }
}

/// `n` with its last `width` decimal digits dropped.
pub open spec fn high_part(n: nat, width: nat) -> nat
    decreases width,
{
    if width == 0 {
        n
    } else {
        high_part(n / 10, (width - 1) as nat)
    }
}

/// Mantissa and scale of `m / 10^s` once the trailing zeros of its
/// fractional part are removed.
pub open spec fn trimmed(m: nat, s: nat) -> (nat, nat)
    decreases s,
{
    if s > 0 && m % 10 == 0 {
        trimmed(m / 10, (s - 1) as nat)
    } else {
        (m, s)
    }
}

/// The shortest decimal text of `(-1)^negative * m / 10^s`: the integer part,
/// then a point and the fractional digits only where some are not zero.
pub open spec fn decimal_text(negative: bool, m: nat, s: nat) -> Seq<char> {
    let (tm, ts) = trimmed(m, s);
    let sign = if negative {
        seq!['-']
    } else {
        Seq::empty()
    };
    let fraction = if ts == 0 {
        Seq::empty()
    } else {
        seq!['.'] + low_digits(tm, ts)
    };
    sign + digits_of(high_part(tm, ts)) + fraction
}

/// A real number held exactly as a sign, a magnitude and a count of decimal
/// places: the value is `(-1)^negative * magnitude / 10^scale`.
#[derive(Clone, Copy, Debug)]
pub struct Decimal {
    pub negative: bool,
    pub magnitude: u64,
    pub scale: u8,
}

impl Decimal {
    /// The number `(-1)^negative * magnitude / 10^scale`.
    pub fn new(negative: bool, magnitude: u64, scale: u8) -> (r: Decimal)
        ensures
            r.negative == negative,
            r.magnitude == magnitude,
            r.scale == scale,
    {
        Decimal { negative, magnitude, scale }
    }

    /// The whole number `value`.
    pub fn from_int(value: i64) -> (r: Decimal)
        ensures
            r.negative == (value < 0),
            r.magnitude == (if value < 0 { -(value as int) } else { value as int }),
            r.scale == 0,
    {
        let magnitude: u64 = if value < 0 {
            (-(value as i128)) as u64
        } else {
            value as u64
        };
        Decimal { negative: value < 0, magnitude, scale: 0 }
    }

    /// What this number is written as.
    pub open spec fn text(&self) -> Seq<char> {
        decimal_text(self.negative, self.magnitude as nat, self.scale as nat)
    }

    /// Writes the number in its shortest decimal form: `150`, `23.4`, `-0.05`.
    pub fn to_text(&self) -> (r: String)
        ensures
            r@ == self.text(),
    {
        let mut m: u64 = self.magnitude;
        let mut s: u8 = self.scale;
        while s > 0 && m % 10 == 0
            invariant
                trimmed(m as nat, s as nat) == trimmed(self.magnitude as nat, self.scale as nat),
            decreases s,
        {
            m = m / 10;
            s = s - 1;
        }
        let mut out = String::new();
        if self.negative {
            out.append("-");
        }
        let mut high: u64 = m;
        let mut k: u8 = 0;
        while k < s
            invariant
                k <= s,
                high_part(high as nat, (s - k) as nat) == high_part(m as nat, s as nat),
            decreases s - k,
        {
            high = high / 10;
            k = k + 1;
        }
        push_digits(&mut out, high);
        if s > 0 {
            out.append(".");
            push_low_digits(&mut out, m, s);
        }
        proof {
            reveal_strlit("-");
            reveal_strlit(".");
            assert(out@ =~= self.text());
        }
        out
    }
}

/// The one-character text of the digit `d`.
fn digit_str(d: u64) -> (r: &'static str)
    requires
        d < 10,
    ensures
        r@ == seq![digit_char(d as nat)],
{
    proof {
        reveal_strlit("0");
        reveal_strlit("1");
        reveal_strlit("2");
        reveal_strlit("3");
        reveal_strlit("4");
        reveal_strlit("5");
        reveal_strlit("6");
        reveal_strlit("7");
        reveal_strlit("8");
        reveal_strlit("9");
    }
    let r = if d == 0 {
        "0"
    } else if d == 1 {
        "1"
    } else if d == 2 {
        "2"
    } else if d == 3 {
        "3"
    } else if d == 4 {
        "4"
    } else if d == 5 {
        "5"
    } else if d == 6 {
        "6"
    } else if d == 7 {
        "7"
    } else if d == 8 {
        "8"
    } else {
        "9"
    };
    assert(r@ =~= seq![digit_char(d as nat)]);
    r
}

/// Appends the decimal digits of `n`.
fn push_digits(out: &mut String, n: u64)
    ensures
        final(out)@ == old(out)@ + digits_of(n as nat),
    decreases n,
{
    if n >= 10 {
        push_digits(out, n / 10);
    }
    out.append(digit_str(n % 10));
    assert(out@ =~= old(out)@ + digits_of(n as nat));
}

/// Appends the last `width` decimal digits of `n`, zero-padded.
fn push_low_digits(out: &mut String, n: u64, width: u8)
    ensures
        final(out)@ == old(out)@ + low_digits(n as nat, width as nat),
    decreases width,
{
    if width > 0 {
        push_low_digits(out, n / 10, width - 1);
        out.append(digit_str(n % 10));
    }
    assert(out@ =~= old(out)@ + low_digits(n as nat, width as nat));
}

} // verus!
