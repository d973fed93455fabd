//! Decimal numbers: the numeric values of a script, held exactly as a sign
//! and two runs of digits, and written in the shortest form that names them.

use vstd::prelude::*;
use crate::scad_type::ScadType;
use crate::decimal_laws::{lemma_digits_value_bounds, lemma_digits_value_concat};
use crate::text::{digit_char, digit_of, digit_to_char, is_digit};

verus! {

/// What a [`Decimal`] holds: a sign, the digits before the point and the
/// digits after it, most significant first.
pub struct DecimalView {
    pub negative: bool,
    pub whole: Seq<u8>,
    pub fraction: Seq<u8>,
}

/// Whether every entry of `d` is a decimal digit.
pub open spec fn all_digits(d: Seq<u8>) -> bool {
    forall|i: int| 0 <= i < d.len() ==> #[trigger] d[i] <= 9
}

/// The characters of the digits `d`.
pub open spec fn digits_text(d: Seq<u8>) -> Seq<char> {
    Seq::new(d.len(), |i: int| digit_char(d[i] as int))
}

/// The digits of the numeral of `n`, without leading zeros.
pub open spec fn nat_digits(n: nat) -> Seq<u8>
    decreases n,
{
    if n < 10 {
        seq![n as u8]
    } else {
        nat_digits(n / 10).push((n % 10) as u8)
    }
}

/// The number that the digits `d` spell.
pub open spec fn digits_value(d: Seq<u8>) -> nat
    decreases d.len(),
{
    if d.len() == 0 {
        0
    } else {
        digits_value(d.drop_last()) * 10 + d.last() as nat
    }
}

/// Ten to the power `n`.
pub open spec fn pow10(n: nat) -> nat
    decreases n,
{
    if n == 0 {
        1
    } else {
        10 * pow10((n - 1) as nat)
    }
}

/// The first position at or after `from` where `s` holds no digit.
pub open spec fn digit_end(s: Seq<char>, from: int) -> int
    decreases s.len() - from,
{
    if 0 <= from < s.len() && is_digit(s[from]) {
        digit_end(s, from + 1)
    } else {
        from
    }
}

/// The digits that `s` holds from `from` up to `to`.
pub open spec fn digits_between(s: Seq<char>, from: int, to: int) -> Seq<u8> {
    Seq::new((to - from) as nat, |i: int| digit_of(s[from + i]) as u8)
}

/// `d` without the zeros in front of its last digit.
pub open spec fn strip_leading_zeros(d: Seq<u8>) -> Seq<u8>
    decreases d.len(),
{
    if d.len() > 1 && d[0] == 0 {
        strip_leading_zeros(d.skip(1))
    } else {
        d
    }
}

/// `d` without the zeros at its end.
pub open spec fn strip_trailing_zeros(d: Seq<u8>) -> Seq<u8>
    decreases d.len(),
{
    if d.len() > 0 && d.last() == 0 {
        strip_trailing_zeros(d.drop_last())
    } else {
        d
    }
}

/// The number that the literal `s` spells, digit for digit, where `s` is a
/// literal: an optional `-`, one or more digits, and optionally a point
/// followed by one or more digits.
pub open spec fn read_literal(s: Seq<char>) -> Option<DecimalView> {
    let negative = s.len() > 0 && s[0] == '-';
    let start = if negative {
        1int
    } else {
        0int
    };
    let mid = digit_end(s, start);
    let whole = digits_between(s, start, mid);
    if mid == start {
        None
    } else if mid == s.len() {
        Some(DecimalView { negative, whole, fraction: Seq::empty() })
    } else if s[mid] != '.' {
        None
    } else {
        let end = digit_end(s, mid + 1);
        if end == mid + 1 || end != s.len() {
            None
        } else {
            Some(DecimalView { negative, whole, fraction: digits_between(s, mid + 1, end) })
        }
    }
}

/// The number that the literal `s` names, in its shortest form: what
/// `read_literal` spells, without the zeros that do not count.
pub open spec fn parse_literal(s: Seq<char>) -> Option<DecimalView> {
    match read_literal(s) {
        Some(v) => Some(v.shortened()),
        None => None,
    }
}

impl DecimalView {
    /// The whole number `i`.
    pub open spec fn of_int(i: int) -> DecimalView {
        DecimalView {
            negative: i < 0,
            whole: nat_digits(
                (if i < 0 {
                    -i
                } else {
                    i
                }) as nat,
            ),
            fraction: Seq::empty(),
        }
    }

    /// Whether the two runs hold digits only, and the first at least one.
    pub open spec fn readable(self) -> bool {
        &&& all_digits(self.whole)
        &&& all_digits(self.fraction)
        &&& self.whole.len() >= 1
    }

    /// The same number without the zeros that do not count: those in front
    /// of the whole part, but for its last digit, and those at the end of
    /// the fraction.
    pub open spec fn shortened(self) -> DecimalView {
        DecimalView {
            negative: self.negative,
            whole: strip_leading_zeros(self.whole),
            fraction: strip_trailing_zeros(self.fraction),
        }
    }

    /// Whether `self` and `other` are the same number, whatever their
    /// digits: their numerators agree once both are brought to one scale.
    pub open spec fn same_number(self, other: DecimalView) -> bool {
        self.numerator() * other.scale() == other.numerator() * self.scale()
    }

    /// The shortest form: at least one digit before the point, no needless
    /// zero in front of it, and no zero at the end of the fraction.
    pub open spec fn wf(self) -> bool {
        &&& all_digits(self.whole)
        &&& all_digits(self.fraction)
        &&& self.whole.len() >= 1
        &&& self.whole.len() > 1 ==> self.whole[0] != 0
        &&& self.fraction.len() > 0 ==> self.fraction.last() != 0
    }

    /// The number, scaled by `scale()` to make it whole.
    pub open spec fn numerator(self) -> int {
        if self.negative {
            -(digits_value(self.whole + self.fraction) as int)
        } else {
            digits_value(self.whole + self.fraction) as int
        }
    }

    /// The power of ten that the number is scaled by: the number itself is
    /// `numerator() / scale()`.
    pub open spec fn scale(self) -> nat {
        pow10(self.fraction.len())
    }

    /// Whether the number lies between 0 and 1, both included.
    pub open spec fn in_unit_interval(self) -> bool {
        0 <= self.numerator() <= self.scale()
    }

    /// The numeral: `-` where negative, the whole digits, and, where there
    /// is a fraction, a point and its digits.
    pub open spec fn text(self) -> Seq<char> {
        (if self.negative {
            seq!['-']
        } else {
            Seq::empty()
        }) + digits_text(self.whole) + (if self.fraction.len() > 0 {
            seq!['.'] + digits_text(self.fraction)
        } else {
            Seq::empty()
        })
    }
}

/// A decimal number of any size and precision, kept in its shortest form.
/// Zero keeps its sign: `-0` is a number of its own, written `-0`.
pub struct Decimal {
    negative: bool,
    whole: Vec<u8>,
    fraction: Vec<u8>,
}

impl View for Decimal {
    type V = DecimalView;

    closed spec fn view(&self) -> DecimalView {
        DecimalView { negative: self.negative, whole: self.whole@, fraction: self.fraction@ }
    }
}

/// Appends the characters of the digits `d` to `f`.
fn fmt_digits(d: &Vec<u8>, f: &mut String)
    requires
        all_digits(d@),
    ensures
        final(f)@ == old(f)@ + digits_text(d@),
{
    let ghost start = f@;
    let mut i: usize = 0;
    while i < d.len()
        invariant
            i <= d.len(),
            all_digits(d@),
            f@ == start + digits_text(d@.take(i as int)),
        decreases d.len() - i,
    {
        f.push(digit_to_char(d[i]));
        i += 1;
    }
}

/// The digits of `n` appended to `d`.
fn push_nat_digits(n: u64, d: &mut Vec<u8>)
    requires
        all_digits(old(d)@),
    ensures
        final(d)@ == old(d)@ + nat_digits(n as nat),
        all_digits(final(d)@),
        n >= 10 ==> nat_digits(n as nat)[0] != 0,
        nat_digits(n as nat).len() >= 1,
    decreases n,
{
    if n >= 10 {
        push_nat_digits(n / 10, d);
    }
    d.push((n % 10) as u8);
}

/// The characters of `text`, one by one.
fn chars_of(text: &str) -> (chars: Vec<char>)
    ensures
        chars@ == text@,
{
    let mut chars: Vec<char> = Vec::new();
    let all = text.chars();
    for c in it: all
        invariant
            it.seq() == text@,
            chars@ == text@.take(it.index()),
    {
        chars.push(c);
    }
    chars
}

/// Whether `c` is a decimal digit.
fn char_is_digit(c: char) -> (b: bool)
    ensures
        b == is_digit(c),
{
    '0' <= c && c <= '9'
}

/// Where the run of digits that starts at `from` ends.
fn scan_digits(chars: &Vec<char>, from: usize) -> (end: usize)
    requires
        from <= chars.len(),
    ensures
        end == digit_end(chars@, from as int),
        from <= end <= chars.len(),
        forall|i: int| from <= i < end ==> is_digit(#[trigger] chars@[i]),
{
    let mut end = from;
    while end < chars.len() && char_is_digit(chars[end])
        invariant
            from <= end <= chars.len(),
            digit_end(chars@, from as int) == digit_end(chars@, end as int),
            forall|i: int| from <= i < end ==> is_digit(#[trigger] chars@[i]),
        decreases chars.len() - end,
    {
        end += 1;
    }
    end
}

/// The digits that `chars` holds from `from` up to `to`.
fn collect_digits(chars: &Vec<char>, from: usize, to: usize) -> (d: Vec<u8>)
    requires
        from <= to <= chars.len(),
        forall|i: int| from <= i < to ==> is_digit(#[trigger] chars@[i]),
    ensures
        d@ == digits_between(chars@, from as int, to as int),
        all_digits(d@),
{
    let mut d: Vec<u8> = Vec::new();
    let mut i = from;
    while i < to
        invariant
            from <= i <= to <= chars.len(),
            forall|j: int| from <= j < to ==> is_digit(#[trigger] chars@[j]),
            d@ == digits_between(chars@, from as int, i as int),
            all_digits(d@),
        decreases to - i,
    {
        let c = chars[i];
        d.push((c as u32 - 48) as u8);
        i += 1;
    }
    d
}

/// `d` from its first digit that counts: the first that is not zero, or the
/// last.
fn without_leading_zeros(d: Vec<u8>) -> (r: Vec<u8>)
    requires
        d.len() >= 1,
        all_digits(d@),
    ensures
        r@ == strip_leading_zeros(d@),
        all_digits(r@),
        r.len() >= 1,
        r.len() > 1 ==> r[0] != 0,
{
    let mut first: usize = 0;
    assert(d@.skip(0) =~= d@);
    while first + 1 < d.len() && d[first] == 0
        invariant
            first < d.len(),
            strip_leading_zeros(d@) == strip_leading_zeros(d@.skip(first as int)),
        decreases d.len() - first,
    {
        assert(d@.skip(first as int).skip(1) =~= d@.skip(first + 1));
        first += 1;
    }
    let mut r: Vec<u8> = Vec::new();
    let mut i = first;
    while i < d.len()
        invariant
            first <= i <= d.len(),
            r@ == d@.subrange(first as int, i as int),
        decreases d.len() - i,
    {
        r.push(d[i]);
        i += 1;
    }
    r
}

/// `d` up to its last digit that is not zero.
fn without_trailing_zeros(d: Vec<u8>) -> (r: Vec<u8>)
    requires
        all_digits(d@),
    ensures
        r@ == strip_trailing_zeros(d@),
        all_digits(r@),
        r.len() > 0 ==> r@.last() != 0,
{
    let mut r = d;
    while r.len() > 0 && r[r.len() - 1] == 0
        invariant
            all_digits(r@),
            strip_trailing_zeros(d@) == strip_trailing_zeros(r@),
        decreases r.len(),
    {
        r.pop();
    }
    r
}

impl Decimal {
    /// Every `Decimal` is in its shortest form.
    #[verifier::type_invariant]
    pub open spec fn shortest(&self) -> bool {
        self@.wf()
    }

    /// The whole number `value`.
    pub fn from_int(value: i64) -> (d: Decimal)
        ensures
            d@ == DecimalView::of_int(value as int),
    {
        let magnitude: u64 = if value < 0 {
            (-(value + 1)) as u64 + 1
        } else {
            value as u64
        };
        let mut whole: Vec<u8> = Vec::new();
        push_nat_digits(magnitude, &mut whole);
        Decimal { negative: value < 0, whole, fraction: Vec::new() }
    }

    /// Whether the number lies between 0 and 1, both included.
    pub fn in_unit_interval(&self) -> (inside: bool)
        ensures
            inside == self@.in_unit_interval(),
    {
        let whole_is_zero = self.whole.len() == 1 && self.whole[0] == 0;
        let whole_is_one = self.whole.len() == 1 && self.whole[0] == 1;
        let no_fraction = self.fraction.len() == 0;
        proof {
            use_type_invariant(self);
            let w = digits_value(self.whole@);
            let p = pow10(self.fraction@.len());
            lemma_digits_value_concat(self.whole@, self.fraction@);
            lemma_digits_value_bounds(self.whole@);
            lemma_digits_value_bounds(self.fraction@);
            if whole_is_zero {
                assert(w * p == 0) by (nonlinear_arith)
                    requires
                        w == 0,
                ;
            } else if whole_is_one {
                assert(w * p == p) by (nonlinear_arith)
                    requires
                        w == 1,
                ;
            } else {
                assert(w * p >= 2 * p) by (nonlinear_arith)
                    requires
                        w >= 2,
                        p >= 1,
                ;
            }
        }
        if self.negative {
            whole_is_zero && no_fraction
        } else {
            whole_is_zero || (whole_is_one && no_fraction)
        }
    }

    /// Reads a decimal literal: an optional `-`, one or more digits, and
    /// optionally a point followed by one or more digits. Anything else is
    /// no number: there is no decimal for an exponent form, for an infinity
    /// or for what is not a number.
    pub fn parse(text: &str) -> (number: Option<Decimal>)
        ensures
            match number {
                Some(d) => parse_literal(text@) == Some(d@),
                None => parse_literal(text@) is None,
            },
    {
        let chars = chars_of(text);
        let n = chars.len();
        let negative = n > 0 && chars[0] == '-';
        let start: usize = if negative {
            1
        } else {
            0
        };
        let mid = scan_digits(&chars, start);
        if mid == start {
            return None;
        }
        let whole = without_leading_zeros(collect_digits(&chars, start, mid));
        if mid == n {
            return Some(Decimal { negative, whole, fraction: Vec::new() });
        }
        if chars[mid] != '.' {
            return None;
        }
        let end = scan_digits(&chars, mid + 1);
        if end == mid + 1 || end != n {
            return None;
        }
        let fraction = without_trailing_zeros(collect_digits(&chars, mid + 1, end));
        Some(Decimal { negative, whole, fraction })
    }
}

impl Clone for Decimal {
    fn clone(&self) -> (copy: Self)
        ensures
            copy@ == self@,
    {
        proof {
            use_type_invariant(self);
        }
        let whole = self.whole.clone();
        let fraction = self.fraction.clone();
        Decimal { negative: self.negative, whole, fraction }
    }
}

impl ScadType for Decimal {
    open spec fn valid(&self) -> bool {
        true
    }

    open spec fn scad_code(&self) -> Seq<char> {
        self@.text()
    }

    fn fmt_code(&self, f: &mut String) {
        proof {
            use_type_invariant(self);
        }
        if self.negative {
            f.push('-');
        }
        fmt_digits(&self.whole, f);
        if self.fraction.len() > 0 {
            f.push('.');
            fmt_digits(&self.fraction, f);
        }
    }
}

} // verus!
