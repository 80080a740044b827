//! Textual forms used on the wire: decimal integers, decimal fractions and
//! lower-case hexadecimal.

use vstd::prelude::*;
use vstd::string::*;

verus! {

/// The ASCII digit for a value below ten.
pub open spec fn digit_char(d: nat) -> char {
    ((d + 48) as u8) as char
}

/// The decimal text of a natural number, without leading zeros.
pub open spec fn dec_text(n: nat) -> Seq<char>
    decreases n,
{
    if n < 10 {
        seq![digit_char(n)]
    } else {
        dec_text(n / 10).push(digit_char(n % 10))
    }
}

/// Relies on String::push: the character is appended at the end.
#[verifier::external_body]
pub(crate) fn push_char(s: &mut String, c: char)
    ensures
        final(s)@ == old(s)@.push(c),
{
    s.push(c)
}

fn digit(d: u64) -> (c: char)
    requires
        d < 10,
    ensures
        c == digit_char(d as nat),
{
    ((d as u8) + 48u8) as char
}

/// Renders an unsigned integer in decimal.
pub fn u64_text(n: u64) -> (r: String)
    ensures
        r@ == dec_text(n as nat),
    decreases n,
{
    if n < 10 {
        let mut s = String::new();
        push_char(&mut s, digit(n));
        s
    } else {
        let mut s = u64_text(n / 10);
        push_char(&mut s, digit(n % 10));
        s
    }
}


/// Whether every character is an ASCII digit.
pub open spec fn all_digits(s: Seq<char>) -> bool {
    forall|i: int| 0 <= i < s.len() ==> '0' <= #[trigger] s[i] <= '9'
}

/// The number that a string of ASCII digits denotes.
pub open spec fn digits_value(s: Seq<char>) -> nat
    decreases s.len(),
{
    if s.len() == 0 {
        0
    } else {
        digits_value(s.drop_last()) * 10 + ((s.last() as u8) - 48) as nat
    }
}

/// Decimal text is made of digits only, is never empty, and reads back as
/// the number it was made from.
pub proof fn lemma_dec_text(n: nat)
    ensures
        all_digits(dec_text(n)),
        dec_text(n).len() > 0,
        digits_value(dec_text(n)) == n,
    decreases n,
{
    if n < 10 {
        assert(((digit_char(n) as u8) - 48) as nat == n);
        assert(seq![digit_char(n)].drop_last() =~= Seq::<char>::empty());
        assert(digits_value(dec_text(n)) == digits_value(Seq::<char>::empty()) * 10 + n);
    } else {
        lemma_dec_text(n / 10);
        let d = n % 10;
        assert(((digit_char(d) as u8) - 48) as nat == d);
        assert(dec_text(n).drop_last() == dec_text(n / 10));
        assert(dec_text(n).last() == digit_char(d));
        assert(digits_value(dec_text(n)) == (n / 10) * 10 + d);
        assert((n / 10) * 10 + n % 10 == n);
    }
}

/// Two numbers with the same decimal text are equal.
pub proof fn lemma_dec_text_injective(a: nat, b: nat)
    ensures
        dec_text(a) == dec_text(b) ==> a == b,
{
    lemma_dec_text(a);
    lemma_dec_text(b);
}

/// A run of digits followed by a separator that is not a digit can be split
/// off uniquely.
pub proof fn lemma_digits_prefix(d1: Seq<char>, x1: Seq<char>, d2: Seq<char>, x2: Seq<char>)
    requires
        all_digits(d1),
        all_digits(d2),
        x1.len() > 0,
        x2.len() > 0,
        !('0' <= x1[0] <= '9'),
        !('0' <= x2[0] <= '9'),
        d1 + x1 == d2 + x2,
    ensures
        d1 == d2,
        x1 == x2,
{
    let s = d1 + x1;
    if d1.len() < d2.len() {
        assert(s[d1.len() as int] == x1[0]);
        assert(s[d1.len() as int] == d2[d1.len() as int]);
    } else if d2.len() < d1.len() {
        assert(s[d2.len() as int] == x2[0]);
        assert(s[d2.len() as int] == d1[d2.len() as int]);
    }
    assert(d1 == s.take(d1.len() as int));
    assert(d2 == s.take(d2.len() as int));
    assert(x1 == s.skip(d1.len() as int));
    assert(x2 == s.skip(d2.len() as int));
}


/// The lower-case hexadecimal digit for a value below sixteen.
pub open spec fn hex_digit(n: nat) -> char {
    if n < 10 {
        digit_char(n)
    } else {
        ((n + 87) as u8) as char
    }
}

/// Lower-case hexadecimal text of a byte string, two digits per byte, high
/// digit first.
pub open spec fn hex_text(b: Seq<u8>) -> Seq<char>
    decreases b.len(),
{
    if b.len() == 0 {
        Seq::empty()
    } else {
        hex_text(b.drop_last()).push(hex_digit(b.last() as nat / 16)).push(
            hex_digit(b.last() as nat % 16),
        )
    }
}

fn nibble(n: u8) -> (c: char)
    requires
        n < 16,
    ensures
        c == hex_digit(n as nat),
{
    if n < 10 {
        (n + 48u8) as char
    } else {
        (n + 87u8) as char
    }
}

/// Renders bytes as lower-case hexadecimal.
pub fn to_hex(b: &Vec<u8>) -> (r: String)
    ensures
        r@ == hex_text(b@),
{
    let mut s = String::new();
    let mut i: usize = 0;
    while i < b.len()
        invariant
            i <= b@.len(),
            s@ == hex_text(b@.take(i as int)),
        decreases b@.len() - i,
    {
        let x = b[i];
        push_char(&mut s, nibble(x / 16));
        push_char(&mut s, nibble(x % 16));
        assert(b@.take(i + 1).drop_last() == b@.take(i as int));
        i = i + 1;
    }
    assert(b@.take(i as int) == b@);
    s
}

/// A run of `n` zero digits.
pub open spec fn zeros(n: nat) -> Seq<char> {
    Seq::new(n, |i: int| '0')
}

/// The decimal digits of `units`, padded with leading zeros so that at least
/// one digit stands before the last `scale` digits.
pub open spec fn padded_digits(units: nat, scale: nat) -> Seq<char> {
    let d = dec_text(units);
    if d.len() <= scale {
        zeros((scale + 1 - d.len()) as nat) + d
    } else {
        d
    }
}

/// The text of `units / 10^scale`: the integer digits, then, where `scale` is
/// positive, a point and exactly `scale` fractional digits.
pub open spec fn decimal_text(units: nat, scale: nat) -> Seq<char> {
    if scale == 0 {
        dec_text(units)
    } else {
        let p = padded_digits(units, scale);
        p.take(p.len() - scale) + seq!['.'] + p.skip(p.len() - scale)
    }
}

/// A non-negative decimal number `units / 10^scale`, as quantities and prices
/// are written in requests.
#[derive(Clone, Copy, Debug, PartialEq, Eq)]
pub struct Decimal {
    pub units: u64,
    pub scale: u8,
}

impl Decimal {
    pub fn new(units: u64, scale: u8) -> (r: Decimal)
        ensures
            r.units == units,
            r.scale == scale,
    {
        Decimal { units, scale }
    }

    /// The text of this number as it is sent.
    pub open spec fn text(self) -> Seq<char> {
        decimal_text(self.units as nat, self.scale as nat)
    }

    /// Renders the number with exactly `scale` fractional digits.
    pub fn to_text(&self) -> (r: String)
        ensures
            r@ == self.text(),
    {
        let d = u64_text(self.units);
        if self.scale == 0 {
            return d;
        }
        let scale = self.scale as usize;
        let n = d.as_str().unicode_len();
        proof {
            lemma_dec_text(self.units as nat);
        }
        let mut p = String::new();
        if n <= scale {
            let mut i: usize = 0;
            while i < scale + 1 - n
                invariant
                    n <= scale <= 255,
                    i <= scale + 1 - n,
                    p@ == zeros(i as nat),
                decreases scale + 1 - n - i,
            {
                push_char(&mut p, '0');
                assert(p@ == zeros((i + 1) as nat));
                i = i + 1;
            }
        }
        p.append(d.as_str());
        assert(p@ == padded_digits(self.units as nat, self.scale as nat));
        let len = p.as_str().unicode_len();
        let mut out = String::new();
        out.append(p.as_str().substring_char(0, len - scale));
        push_char(&mut out, '.');
        out.append(p.as_str().substring_char(len - scale, len));
        assert(out@ == self.text());
        out
    }
}

} // verus!
