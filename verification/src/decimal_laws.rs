//! What holds of decimal numbers: the number that digits spell, that
//! shortening keeps it, and that the numeral of a number reads back as it.

use vstd::prelude::*;
use crate::decimal::{
    all_digits, digit_end, digits_between, digits_text, digits_value, nat_digits, parse_literal,
    pow10, read_literal, strip_leading_zeros, strip_trailing_zeros, DecimalView,
};
use crate::text::{int_text, is_digit, nat_text, no_braces};

verus! {

/// Powers of ten multiply as their exponents add.
pub proof fn lemma_pow10_add(a: nat, b: nat)
    ensures
        pow10(a + b) == pow10(a) * pow10(b),
        pow10(a) >= 1,
    decreases a,
{
    if a == 0 {
        assert(1 * pow10(b) == pow10(b)) by (nonlinear_arith);
    } else {
        lemma_pow10_add((a - 1) as nat, b);
        let pa = pow10((a - 1) as nat);
        let pb = pow10(b);
        assert(10 * (pa * pb) == (10 * pa) * pb) by (nonlinear_arith);
    }
}

/// Digits put side by side spell the first number, moved left by the length
/// of the second, plus the second.
pub proof fn lemma_digits_value_concat(a: Seq<u8>, b: Seq<u8>)
    ensures
        digits_value(a + b) == digits_value(a) * pow10(b.len()) + digits_value(b),
    decreases b.len(),
{
    let va = digits_value(a);
    if b.len() == 0 {
        assert(va * 1 == va) by (nonlinear_arith);
    } else {
        let init = b.drop_last();
        lemma_digits_value_concat(a, init);
        assert((a + b).drop_last() =~= a + init);
        let p = pow10(init.len());
        let vi = digits_value(init);
        assert((va * p + vi) * 10 == va * (10 * p) + vi * 10) by (nonlinear_arith);
    }
}

/// A run of digits spells a number below the power of ten of its length;
/// one that starts with a digit other than zero spells at least the power
/// before that; one that ends in such a digit spells more than zero.
pub proof fn lemma_digits_value_bounds(d: Seq<u8>)
    requires
        all_digits(d),
    ensures
        digits_value(d) < pow10(d.len()),
        d.len() >= 1 && d[0] != 0 ==> digits_value(d) >= pow10((d.len() - 1) as nat),
        d.len() >= 1 && d.last() != 0 ==> digits_value(d) >= 1,
    decreases d.len(),
{
    if d.len() > 0 {
        lemma_digits_value_bounds(d.drop_last());
    }
}

/// The digits of a whole number are the characters of its numeral.
pub proof fn lemma_nat_digits_text(n: nat)
    ensures
        digits_text(nat_digits(n)) == nat_text(n),
        all_digits(nat_digits(n)),
    decreases n,
{
    if n >= 10 {
        lemma_nat_digits_text(n / 10);
    }
}

/// The digits of a whole number spell that number.
pub proof fn lemma_nat_digits_value(n: nat)
    ensures
        digits_value(nat_digits(n)) == n,
        n >= 10 ==> nat_digits(n)[0] != 0,
        nat_digits(n).len() >= 1,
    decreases n,
{
    if n < 10 {
        reveal_with_fuel(digits_value, 2);
    } else {
        lemma_nat_digits_value(n / 10);
        assert(nat_digits(n).drop_last() =~= nat_digits(n / 10));
    }
}

/// A run of digits that starts at `from` ends at the first character that
/// is no digit, or at the end of the text.
pub proof fn lemma_digit_end(s: Seq<char>, from: int, to: int)
    requires
        0 <= from <= to <= s.len(),
        forall|i: int| from <= i < to ==> is_digit(#[trigger] s[i]),
        to == s.len() || !is_digit(s[to]),
    ensures
        digit_end(s, from) == to,
    decreases to - from,
{
    if from < to {
        lemma_digit_end(s, from + 1, to);
    }
}

/// Up to where a run of digits ends, the text holds digits only, and the
/// run ends inside the text.
pub proof fn lemma_digit_end_run(s: Seq<char>, from: int)
    requires
        0 <= from <= s.len(),
    ensures
        from <= digit_end(s, from) <= s.len(),
        forall|i: int| from <= i < digit_end(s, from) ==> is_digit(#[trigger] s[i]),
        all_digits(digits_between(s, from, digit_end(s, from))),
    decreases s.len() - from,
{
    if from < s.len() && is_digit(s[from]) {
        lemma_digit_end_run(s, from + 1);
    }
}

/// Zeros in front of a run of digits do not change the number it spells.
/// What is left has a digit, and starts with a zero only where it is the
/// single digit `0`.
pub proof fn lemma_strip_leading_zeros(d: Seq<u8>)
    requires
        all_digits(d),
        d.len() >= 1,
    ensures
        digits_value(strip_leading_zeros(d)) == digits_value(d),
        all_digits(strip_leading_zeros(d)),
        strip_leading_zeros(d).len() >= 1,
        strip_leading_zeros(d).len() > 1 ==> strip_leading_zeros(d)[0] != 0,
        d.len() == 1 || d[0] != 0 ==> strip_leading_zeros(d) == d,
    decreases d.len(),
{
    if d.len() > 1 && d[0] == 0 {
        let rest = d.skip(1);
        lemma_strip_leading_zeros(rest);
        let zero = seq![0u8];
        assert(zero + rest =~= d);
        lemma_digits_value_concat(zero, rest);
        assert(digits_value(zero) == 0) by {
            reveal_with_fuel(digits_value, 2);
        }
    }
}

/// Zeros at the end of a fraction do not change the number: each stands
/// for one more power of ten in the scale. What is left does not end in a
/// zero.
pub proof fn lemma_strip_trailing_zeros(d: Seq<u8>)
    requires
        all_digits(d),
    ensures
        strip_trailing_zeros(d).len() <= d.len(),
        digits_value(d) == digits_value(strip_trailing_zeros(d)) * pow10(
            (d.len() - strip_trailing_zeros(d).len()) as nat,
        ),
        all_digits(strip_trailing_zeros(d)),
        strip_trailing_zeros(d).len() > 0 ==> strip_trailing_zeros(d).last() != 0,
        d.len() == 0 || d.last() != 0 ==> strip_trailing_zeros(d) == d,
    decreases d.len(),
{
    if d.len() > 0 && d.last() == 0 {
        let init = d.drop_last();
        lemma_strip_trailing_zeros(init);
        let kept = strip_trailing_zeros(init);
        let dropped = (init.len() - kept.len()) as nat;
        let value = digits_value(kept);
        let p = pow10(dropped);
        assert((value * p) * 10 == value * (10 * p)) by (nonlinear_arith);
    } else {
        let value = digits_value(d);
        assert(value * 1 == value) by (nonlinear_arith);
    }
}

/// Shortening a number leaves the number as it is, and gives its shortest
/// form; a number in its shortest form is left as it is.
pub proof fn lemma_shortened(v: DecimalView)
    requires
        v.readable(),
    ensures
        v.shortened().wf(),
        v.shortened().same_number(v),
        v.wf() ==> v.shortened() == v,
{
    let short = v.shortened();
    lemma_strip_leading_zeros(v.whole);
    lemma_strip_trailing_zeros(v.fraction);
    lemma_digits_value_concat(v.whole, v.fraction);
    lemma_digits_value_concat(short.whole, short.fraction);
    let w = digits_value(v.whole);
    let g = digits_value(short.fraction);
    let kept = short.fraction.len();
    let dropped = (v.fraction.len() - kept) as nat;
    lemma_pow10_add(kept, dropped);
    let pk = pow10(kept);
    let pd = pow10(dropped);
    let pf = pow10(v.fraction.len());
    assert((w * pk + g) * (pk * pd) == (w * (pk * pd) + g * pd) * pk) by (nonlinear_arith);
    if v.negative {
        let a = digits_value(short.whole + short.fraction) as int;
        let b = digits_value(v.whole + v.fraction) as int;
        assert((-a) * pf == (-b) * pk) by (nonlinear_arith)
            requires
                a * pf == b * pk,
        ;
    }
}

/// What `read_literal` reads is made of digits, with at least one before
/// the point: the number that `parse_literal` gives for a literal is in its
/// shortest form and is the number that the literal spells.
pub proof fn lemma_parse_literal(s: Seq<char>)
    ensures
        read_literal(s) matches Some(read) ==> {
            &&& read.readable()
            &&& parse_literal(s) == Some(read.shortened())
            &&& read.shortened().wf()
            &&& read.shortened().same_number(read)
        },
        read_literal(s) is None <==> parse_literal(s) is None,
{
    if let Some(read) = read_literal(s) {
        let start: int = if s.len() > 0 && s[0] == '-' {
            1
        } else {
            0
        };
        let mid = digit_end(s, start);
        lemma_digit_end_run(s, start);
        if mid < s.len() {
            lemma_digit_end_run(s, mid + 1);
        }
        lemma_shortened(read);
    }
}

/// The numeral of a number in its shortest form reads back as that number:
/// writing and reading lose nothing.
pub proof fn lemma_text_round_trip(v: DecimalView)
    requires
        v.wf(),
    ensures
        read_literal(v.text()) == Some(v),
        parse_literal(v.text()) == Some(v),
{
    lemma_shortened(v);
    let t = v.text();
    let sign: Seq<char> = if v.negative {
        seq!['-']
    } else {
        Seq::empty()
    };
    let start = sign.len() as int;
    let mid = start + v.whole.len();
    lemma_digit_end(t, start, mid);
    assert(digits_between(t, start, mid) =~= v.whole);
    if v.fraction.len() == 0 {
        assert(v.fraction =~= Seq::<u8>::empty());
    } else {
        let end = t.len() as int;
        lemma_digit_end(t, mid + 1, end);
        assert(digits_between(t, mid + 1, end) =~= v.fraction);
    }
}

/// The numeral of a number in its shortest form holds nothing that could
/// be left out: no sign unless the number is negative, no zero in front of
/// the whole part unless it is the single digit `0`, no point without a
/// fraction, and no zero at the end of a fraction.
pub proof fn lemma_text_shortest(v: DecimalView)
    requires
        v.wf(),
    ensures
        v.text().len() >= 1,
        (v.text()[0] == '-') == v.negative,
        v.text().contains('.') == (v.fraction.len() > 0),
        v.fraction.len() > 0 ==> v.text().last() != '0',
        v.text().last() != '.',
        v.whole.len() > 1 ==> v.text()[if v.negative { 1int } else { 0int }] != '0',
{
    if v.fraction.len() > 0 {
        let point = v.whole.len() + if v.negative {
            1int
        } else {
            0int
        };
        assert(v.text()[point] == '.');
    }
}

/// The numeral of a number in its shortest form is made of digits, at most
/// one `-` and at most one point: it holds no brace.
pub proof fn lemma_text_no_braces(v: DecimalView)
    requires
        v.wf(),
    ensures
        forall|i: int|
            0 <= i < v.text().len() ==> is_digit(#[trigger] v.text()[i]) || v.text()[i] == '-'
                || v.text()[i] == '.',
        no_braces(v.text()),
{
}

/// The decimal of a whole number is that number, over the scale one, in
/// its shortest form.
pub proof fn lemma_of_int(i: int)
    ensures
        DecimalView::of_int(i).wf(),
        DecimalView::of_int(i).numerator() == i,
        DecimalView::of_int(i).scale() == 1,
{
    let magnitude = (if i < 0 {
        -i
    } else {
        i
    }) as nat;
    lemma_nat_digits_text(magnitude);
    lemma_nat_digits_value(magnitude);
}

/// A whole number is written as a decimal exactly as it is written as an
/// integer: without a point.
pub proof fn lemma_whole_number_text(i: int)
    ensures
        DecimalView::of_int(i).text() == int_text(i),
{
    let magnitude = (if i < 0 {
        -i
    } else {
        i
    }) as nat;
    lemma_nat_digits_text(magnitude);
}

} // verus!
