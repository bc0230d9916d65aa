//! What numbers in decimal stand for, read and written.

use vstd::prelude::*;

use crate::decimal::{
    count_value, decimal_text, decimal_value, digit_of, digits_end, exponent_at, is_digit, leading_number,
    number, numeral, padded_digits, pow10, rounded, Numeral,
};
use crate::text::{decimal_digits, digit_char};

verus! {

// ---------------------------------------------------------------------------
// Digits and what they are worth
// ---------------------------------------------------------------------------
/// A row made of decimal digits only.
pub open spec fn all_digits(s: Seq<char>) -> bool {
    forall|i: int| 0 <= i < s.len() ==> '0' <= (#[trigger] s[i]) && s[i] <= '9'
}

/// Each further digit makes a number ten times as large and adds its own worth; powers of
/// ten grow tenfold.
pub proof fn law_digits_count_tenfold(digits: Seq<char>, c: char, n: nat)
    requires
        '0' <= c && c <= '9',
    ensures
        number(Seq::empty()) == 0,
        number(digits.push(c)) == number(digits) * 10 + (c as int - '0' as int),
        pow10(0) == 1,
        pow10(n + 1) == 10 * pow10(n),
{
    assert(digits.push(c).drop_last() =~= digits);
}

/// Digits in front of others count as many tens more as there are others.
pub proof fn law_digits_in_front(front: Seq<char>, back: Seq<char>)
    ensures
        number(front + back) == number(front) * pow10(back.len()) + number(back),
    decreases back.len(),
{
    if back.len() == 0 {
        assert(front + back =~= front);
        assert(number(front) * pow10(0) == number(front)) by (nonlinear_arith)
            requires
                pow10(0) == 1,
        ;
    } else {
        let rest = back.drop_last();
        law_digits_in_front(front, rest);
        assert((front + back).drop_last() =~= front + rest);
        assert((front + back).last() == back.last());
        assert(pow10(back.len()) == 10 * pow10(rest.len()));
        let f = number(front);
        let p = pow10(rest.len());
        assert((f * p) * 10 == f * (10 * p)) by (nonlinear_arith);
        assert(number(front + back) == (f * p + number(rest)) * 10 + digit_of(back.last()));
    }
}

proof fn lemma_number_below(digits: Seq<char>)
    ensures
        number(digits) < pow10(digits.len()),
    decreases digits.len(),
{
    if digits.len() > 0 {
        lemma_number_below(digits.drop_last());
        assert(digit_of(digits.last()) <= 9);
    }
}

proof fn lemma_pow10_positive(n: nat)
    ensures
        pow10(n) >= 1,
    decreases n,
{
    if n > 0 {
        lemma_pow10_positive((n - 1) as nat);
    }
}

proof fn lemma_pow10_sum(a: nat, b: nat)
    ensures
        pow10(a + b) == pow10(a) * pow10(b),
    decreases b,
{
    if b == 0 {
        assert(pow10(a) * pow10(0) == pow10(a)) by (nonlinear_arith)
            requires
                pow10(0) == 1,
        ;
    } else {
        lemma_pow10_sum(a, (b - 1) as nat);
        let x = pow10(a);
        let y = pow10((b - 1) as nat);
        assert(10 * (x * y) == x * (10 * y)) by (nonlinear_arith);
        assert(pow10(a + b) == 10 * pow10((a + b - 1) as nat));
    }
}

// ---------------------------------------------------------------------------
// Reading
// ---------------------------------------------------------------------------
/// The parts that a number is written in: a sign or none, digits, a point with further
/// digits or none, and an exponent or none.
pub struct Written {
    pub sign: Option<char>,
    pub whole: Seq<char>,
    pub point: bool,
    pub fraction: Seq<char>,
    pub mark: Option<char>,
    pub exponent_sign: Option<char>,
    pub exponent: Seq<char>,
}

/// A character that may be missing, as text.
pub open spec fn text_of(c: Option<char>) -> Seq<char> {
    match c {
        Some(c) => seq![c],
        None => Seq::empty(),
    }
}

/// The parts make up a number.
pub open spec fn is_number(w: Written) -> bool {
    &&& w.sign matches Some(c) ==> c == '+' || c == '-'
    &&& all_digits(w.whole) && all_digits(w.fraction) && all_digits(w.exponent)
    &&& w.whole.len() + w.fraction.len() > 0
    &&& !w.point ==> w.fraction.len() == 0
    &&& w.mark matches Some(c) ==> c == 'e' || c == 'E'
    &&& w.exponent_sign matches Some(c) ==> c == '+' || c == '-'
    &&& w.mark is Some ==> w.exponent.len() > 0
    &&& w.mark is None ==> w.exponent_sign is None && w.exponent.len() == 0
}

/// The parts one after the other.
pub open spec fn text_written(w: Written) -> Seq<char> {
    text_of(w.sign) + w.whole + (if w.point {
        seq!['.']
    } else {
        Seq::empty()
    }) + w.fraction + text_of(w.mark) + text_of(w.exponent_sign) + w.exponent
}

/// By how many places the exponent moves the point.
pub open spec fn places_moved(w: Written) -> int {
    if w.exponent_sign == Some('-') {
        -(number(w.exponent) as int)
    } else {
        number(w.exponent) as int
    }
}

/// How many millionths the parts are worth, without the sign: all their digits as one
/// number, moved by the exponent and the place of the point, and cut off below.
pub open spec fn millionths(w: Written) -> nat {
    let all = number(w.whole + w.fraction);
    let shift = places_moved(w) + 6 - w.fraction.len();
    if shift >= 0 {
        all * pow10(shift as nat)
    } else {
        all / pow10((-shift) as nat)
    }
}

/// Every number is read for what it is worth, however it is written and however long it
/// is; only one that is too large to hold is refused.
pub proof fn law_every_number_is_read(w: Written)
    requires
        is_number(w),
    ensures
        millionths(w) <= i64::MAX ==> decimal_value(text_written(w)) is Some && decimal_value(
            text_written(w),
        )->0 == if w.sign == Some('-') {
            -(millionths(w) as int)
        } else {
            millionths(w) as int
        },
        millionths(w) > i64::MAX ==> decimal_value(text_written(w)) is None,
{
    lemma_numeral_of(w);
    lemma_leading(w.whole + w.fraction, w.whole.len() + places_moved(w) + 6);
}

/// Nothing but a number is read: a text that gives a quantity is made of the parts of a
/// number.
pub proof fn law_only_numbers_are_read(s: Seq<char>)
    requires
        decimal_value(s) is Some,
    ensures
        exists|w: Written| is_number(w) && #[trigger] text_written(w) == s,
{
    lemma_parts_follow(s);
    lemma_parts_make_up(s);
    assert(is_number(parts_of(s)) && text_written(parts_of(s)) == s);
}

/// Where the parts of a number end: its sign, its digits, the point, the digits behind
/// it, the mark and the sign of the exponent.
spec fn ends_of(s: Seq<char>) -> (int, int, int, int, int, int) {
    let sign_end: int = if s.len() > 0 && (s[0] == '+' || s[0] == '-') {
        1
    } else {
        0
    };
    let whole_end = digits_end(s, sign_end);
    let has_point = whole_end < s.len() && s[whole_end] == '.';
    let point_end = if has_point {
        whole_end + 1
    } else {
        whole_end
    };
    let fraction_end = if has_point {
        digits_end(s, point_end)
    } else {
        whole_end
    };
    let mark_end = if fraction_end < s.len() {
        fraction_end + 1
    } else {
        fraction_end
    };
    let exponent_sign_end = if fraction_end < s.len() && mark_end < s.len() && (s[mark_end] == '+'
        || s[mark_end] == '-') {
        mark_end + 1
    } else {
        mark_end
    };
    (sign_end, whole_end, point_end, fraction_end, mark_end, exponent_sign_end)
}

/// The character at `i`, where the part that starts there is not empty.
spec fn char_at(s: Seq<char>, i: int, end: int) -> Option<char> {
    if i < end {
        Some(s[i])
    } else {
        None
    }
}

spec fn parts_of(s: Seq<char>) -> Written {
    let (a, b, c, d, e, f) = ends_of(s);
    Written {
        sign: char_at(s, 0, a),
        whole: s.subrange(a, b),
        point: b < c,
        fraction: s.subrange(c, d),
        mark: char_at(s, d, e),
        exponent_sign: char_at(s, e, f),
        exponent: s.subrange(f, s.len() as int),
    }
}

proof fn lemma_ends(s: Seq<char>)
    requires
        numeral(s) is Some,
    ensures
        ({
            let (a, b, c, d, e, f) = ends_of(s);
            &&& 0 <= a <= b <= c <= d <= e <= f <= s.len()
            &&& a <= 1 && c <= b + 1 && e <= d + 1 && f <= e + 1
            &&& a == 1 ==> s[0] == '+' || s[0] == '-'
            &&& b < c ==> s[b] == '.'
            &&& b == c ==> c == d
            &&& d < e ==> s[d] == 'e' || s[d] == 'E'
            &&& e < f ==> s[e] == '+' || s[e] == '-'
            &&& d == e ==> f == s.len() && e == f
            &&& d < e ==> f < s.len()
            &&& (b - a) + (d - c) > 0
            &&& all_digits(s.subrange(a, b))
            &&& all_digits(s.subrange(c, d))
            &&& all_digits(s.subrange(f, s.len() as int))
        }),
{
    let (a, b, c, d, e, f) = ends_of(s);
    lemma_run(s, a);
    if b < c {
        lemma_run(s, c);
    }
    assert(exponent_at(s, d) is Some);
    if d < s.len() {
        lemma_run(s, f);
    }
    lemma_digits_of(s, a, b);
    lemma_digits_of(s, c, d);
    lemma_digits_of(s, f, s.len() as int);
}

proof fn lemma_parts_make_up(s: Seq<char>)
    requires
        numeral(s) is Some,
    ensures
        is_number(parts_of(s)),
{
    lemma_ends(s);
}

proof fn lemma_parts_follow(s: Seq<char>)
    requires
        numeral(s) is Some,
    ensures
        text_written(parts_of(s)) == s,
{
    lemma_ends(s);
    let (a, b, c, d, e, f) = ends_of(s);
    let w = parts_of(s);
    let end = s.len() as int;
    assert(text_of(w.sign) =~= s.subrange(0, a));
    assert((if w.point {
        seq!['.']
    } else {
        Seq::<char>::empty()
    }) =~= s.subrange(b, c));
    assert(text_of(w.mark) =~= s.subrange(d, e));
    assert(text_of(w.exponent_sign) =~= s.subrange(e, f));
    lemma_join(s, a, b);
    lemma_join(s, b, c);
    lemma_join(s, c, d);
    lemma_join(s, d, e);
    lemma_join(s, e, f);
    lemma_join(s, f, end);
    assert(s.subrange(0, end) =~= s);
}

proof fn lemma_join(s: Seq<char>, i: int, end: int)
    requires
        0 <= i <= end <= s.len(),
    ensures
        s.subrange(0, i) + s.subrange(i, end) == s.subrange(0, end),
{
    assert(s.subrange(0, i) + s.subrange(i, end) =~= s.subrange(0, end));
}

proof fn lemma_digits_of(s: Seq<char>, i: int, end: int)
    requires
        0 <= i <= end <= s.len(),
        forall|j: int| i <= j < end ==> '0' <= (#[trigger] s[j]) && s[j] <= '9',
    ensures
        all_digits(s.subrange(i, end)),
{
    assert forall|j: int| 0 <= j < end - i implies '0' <= (#[trigger] s.subrange(i, end)[j])
        && s.subrange(i, end)[j] <= '9' by {
        assert(s.subrange(i, end)[j] == s[i + j]);
    }
}

/// Whole numbers are read for what they are worth, with or without a plus, however long;
/// one that does not fit is refused.
pub proof fn law_every_count_is_read(digits: Seq<char>)
    requires
        all_digits(digits),
        digits.len() > 0,
    ensures
        number(digits) <= u32::MAX ==> {
            &&& count_value(digits) is Some && count_value(digits)->0 == number(digits)
            &&& count_value(seq!['+'] + digits) == count_value(digits)
        },
        number(digits) > u32::MAX ==> count_value(digits) is None && count_value(
            seq!['+'] + digits,
        ) is None,
{
    let plus = seq!['+'] + digits;
    lemma_run_is(digits, 0, digits.len() as int);
    lemma_run_is(plus, 1, plus.len() as int);
    assert(digits.subrange(0, digits.len() as int) =~= digits);
    assert(plus.subrange(1, plus.len() as int) =~= digits);
    assert(plus[0] == '+');
    assert(digits[0] != '+');
}

/// Nothing but a whole number is read as one.
pub proof fn law_only_counts_are_read(s: Seq<char>)
    requires
        count_value(s) is Some,
    ensures
        s.len() > 0,
        all_digits(s) || (s[0] == '+' && s.len() > 1 && all_digits(s.drop_first())),
{
    let start: int = if s[0] == '+' {
        1
    } else {
        0
    };
    lemma_run(s, start);
}

/// Where a run of digits ends, and that it holds nothing but digits.
proof fn lemma_run(s: Seq<char>, i: int)
    requires
        0 <= i <= s.len(),
    ensures
        i <= digits_end(s, i) <= s.len(),
        forall|j: int| i <= j < digits_end(s, i) ==> '0' <= (#[trigger] s[j]) && s[j] <= '9',
    decreases s.len() - i,
{
    if i < s.len() && is_digit(s[i]) {
        lemma_run(s, i + 1);
    }
}

/// A run of digits ends at the first character that is none.
proof fn lemma_run_is(s: Seq<char>, i: int, end: int)
    requires
        0 <= i <= end <= s.len(),
        forall|j: int| i <= j < end ==> '0' <= (#[trigger] s[j]) && s[j] <= '9',
        end < s.len() ==> !('0' <= s[end] && s[end] <= '9'),
    ensures
        digits_end(s, i) == end,
    decreases end - i,
{
    if i < end {
        assert(is_digit(s[i]));
        lemma_run_is(s, i + 1, end);
    }
}

proof fn lemma_numeral_of(w: Written)
    requires
        is_number(w),
    ensures
        numeral(text_written(w)) == Some(
            Numeral {
                negative: w.sign == Some('-'),
                digits: w.whole + w.fraction,
                point: w.whole.len() + places_moved(w),
            },
        ),
{
    let s = text_written(w);
    let start = text_of(w.sign).len() as int;
    let whole_end = start + w.whole.len();
    let fraction_start = whole_end + (if w.point {
        1int
    } else {
        0
    });
    let fraction_end = fraction_start + w.fraction.len();
    let exponent_start = fraction_end + text_of(w.mark).len() + text_of(w.exponent_sign).len();
    assert(s.len() == exponent_start + w.exponent.len());
    assert(s.subrange(start, whole_end) =~= w.whole);
    assert(s.subrange(fraction_start, fraction_end) =~= w.fraction);
    assert(s.subrange(exponent_start, s.len() as int) =~= w.exponent);
    assert forall|j: int| start <= j < whole_end implies '0' <= (#[trigger] s[j]) && s[j] <= '9' by {
        assert(s[j] == w.whole[j - start]);
    }
    assert forall|j: int| fraction_start <= j < fraction_end implies '0' <= (#[trigger] s[j]) && s[j]
        <= '9' by {
        assert(s[j] == w.fraction[j - fraction_start]);
    }
    assert forall|j: int| exponent_start <= j < s.len() implies '0' <= (#[trigger] s[j]) && s[j]
        <= '9' by {
        assert(s[j] == w.exponent[j - exponent_start]);
    }
    if w.sign is Some {
        assert(s[0] == w.sign->0);
    } else if w.whole.len() > 0 {
        assert(s[0] == w.whole[0]);
    }
    if w.point {
        assert(s[whole_end] == '.');
    }
    if w.mark is Some {
        assert(s[fraction_end] == w.mark->0);
        if w.exponent_sign is Some {
            assert(s[fraction_end + 1] == w.exponent_sign->0);
        } else {
            assert(s[fraction_end + 1] == w.exponent[0]);
        }
    }
    lemma_run_is(s, start, whole_end);
    if w.point {
        lemma_run_is(s, fraction_start, fraction_end);
    }
    if w.mark is Some {
        lemma_run_is(s, exponent_start, s.len() as int);
    }
    assert(number(Seq::<char>::empty()) == 0);
    if w.exponent.len() == 0 {
        assert(w.exponent =~= Seq::<char>::empty());
    }
    assert(exponent_at(s, fraction_end) == Some(places_moved(w)));
}

/// The first digits of a row are worth the row without its last digits.
proof fn lemma_leading(digits: Seq<char>, count: int)
    ensures
        count >= digits.len() ==> leading_number(digits, count) == number(digits) * pow10(
            (count - digits.len()) as nat,
        ),
        count < digits.len() ==> leading_number(digits, count) == number(digits) / pow10(
            (digits.len() - count) as nat,
        ),
{
    if count >= digits.len() {
        if count == digits.len() {
            assert(digits.take(count) =~= digits);
            assert(number(digits) * pow10(0) == number(digits)) by (nonlinear_arith)
                requires
                    pow10(0) == 1,
            ;
            if count == 0 {
                assert(digits =~= Seq::<char>::empty());
            }
        }
    } else {
        let r = (digits.len() - count) as nat;
        let p = pow10(r);
        lemma_pow10_positive(r);
        if count <= 0 {
            lemma_number_below(digits);
            lemma_pow10_sum(digits.len(), (-count) as nat);
            lemma_pow10_positive((-count) as nat);
            let n = number(digits);
            let a = pow10(digits.len());
            let b = pow10((-count) as nat);
            assert(a <= a * b) by (nonlinear_arith)
                requires
                    b >= 1,
            ;
            assert(n / p == 0) by (nonlinear_arith)
                requires
                    0 <= n < p,
            ;
        } else {
            let front = digits.take(count);
            let back = digits.skip(count);
            assert(front + back =~= digits);
            law_digits_in_front(front, back);
            lemma_number_below(back);
            let f = number(front);
            let b = number(back);
            let n = number(digits);
            assert(n / p == f) by (nonlinear_arith)
                requires
                    n == f * p + b,
                    0 <= b < p,
            ;
        }
    }
}

// ---------------------------------------------------------------------------
// Writing
// ---------------------------------------------------------------------------
proof fn lemma_digit_char(d: int)
    requires
        0 <= d < 10,
    ensures
        '0' <= digit_char(d) && digit_char(d) <= '9',
        digit_of(digit_char(d)) == d,
        d != 0 ==> digit_char(d) != '0',
{
}

/// A whole number is written in digits that are worth it, without a zero in front.
pub proof fn law_whole_numbers_read_back(n: nat)
    ensures
        all_digits(decimal_digits(n)),
        number(decimal_digits(n)) == n,
        decimal_digits(n).len() > 0,
        n > 0 ==> decimal_digits(n)[0] != '0',
        n < 10 ==> decimal_digits(n).len() == 1,
    decreases n,
{
    lemma_digit_char((n % 10) as int);
    let text = decimal_digits(n);
    if n < 10 {
        assert(text.drop_last() =~= Seq::<char>::empty());
        assert(text.last() == digit_char(n as int));
        assert(number(text.drop_last()) == 0);
        assert(number(text) == number(text.drop_last()) * 10 + digit_of(text.last()));
    } else {
        law_whole_numbers_read_back(n / 10);
        let front = decimal_digits(n / 10);
        assert(text.drop_last() =~= front);
        assert(text[0] == front[0]);
        assert(text.last() == digit_char((n % 10) as int));
        assert(number(text) == number(text.drop_last()) * 10 + digit_of(text.last()));
        assert forall|i: int| 0 <= i < text.len() implies '0' <= (#[trigger] text[i]) && text[i]
            <= '9' by {
            if i < front.len() {
                assert(text[i] == front[i]);
            }
        }
    }
}

proof fn lemma_padded(n: nat, width: nat)
    ensures
        padded_digits(n, width).len() == width,
        all_digits(padded_digits(n, width)),
        number(padded_digits(n, width)) == n % pow10(width),
    decreases width,
{
    lemma_pow10_positive(width);
    if width == 0 {
        assert(n % 1 == 0);
    } else {
        let w = (width - 1) as nat;
        lemma_padded(n / 10, w);
        lemma_pow10_positive(w);
        lemma_digit_char((n % 10) as int);
        let text = padded_digits(n, width);
        let front = padded_digits(n / 10, w);
        assert(text.drop_last() =~= front);
        assert forall|i: int| 0 <= i < text.len() implies '0' <= (#[trigger] text[i]) && text[i]
            <= '9' by {
            if i < front.len() {
                assert(text[i] == front[i]);
            }
        }
        let p = pow10(w);
        let q = n / 10;
        assert(n % (10 * p) == (q % p) * 10 + n % 10) by (nonlinear_arith)
            requires
                q == n / 10,
                p >= 1,
        {
            let k = q / p;
            let r = q % p;
            assert(q == k * p + r && 0 <= r < p);
            let m = r * 10 + n % 10;
            assert(n == q * 10 + n % 10);
            assert(n == k * (10 * p) + m);
            assert(0 <= m < 10 * p);
            vstd::arithmetic::div_mod::lemma_fundamental_div_mod_converse(
                n as int,
                (10 * p) as int,
                k as int,
                m as int,
            );
        }
    }
}

/// A quantity that is written with some decimals reads back as the nearest one that has
/// no more of them: it is off by half a unit of the last decimal at most, and where it is
/// off by exactly that, the last digit is even. The text has a sign where the quantity is
/// negative, no zero too many in front, and exactly that many decimals.
pub proof fn law_written_decimals_read_back(value: int, places: nat)
    requires
        places <= 6,
        -9_223_372_036_853_000_000 <= value <= 9_223_372_036_853_000_000,
    ensures
        ({
            let text = decimal_text(value, places);
            let unit = pow10((6 - places) as nat) as int;
            &&& decimal_value(text) is Some
            &&& -unit <= 2 * (decimal_value(text)->0 - value) <= unit
            &&& decimal_value(text)->0 as int % unit == 0
            &&& 2 * (decimal_value(text)->0 - value) == unit || 2 * (decimal_value(text)->0 - value)
                == -unit ==> (decimal_value(text)->0 as int / unit) % 2 == 0
            &&& exists|w: Written|
                {
                    &&& is_number(w)
                    &&& #[trigger] text_written(w) == text
                    &&& w.sign == (if value < 0 {
                        Some('-')
                    } else {
                        None::<char>
                    })
                    &&& w.whole.len() >= 1
                    &&& w.whole.len() > 1 ==> w.whole[0] != '0'
                    &&& w.point == (places > 0)
                    &&& w.fraction.len() == places
                    &&& w.mark is None
                }
        }),
{
    let magnitude: nat = if value < 0 {
        (-value) as nat
    } else {
        value as nat
    };
    let unit = pow10((6 - places) as nat);
    let shown = rounded(magnitude, unit);
    let w = written_decimal(value, places);
    lemma_unit(places);
    lemma_rounding(magnitude, unit);
    lemma_written_form(value, places);
    lemma_written_worth(value, places);
    law_every_number_is_read(w);
    let size = (shown * unit) as int;
    let read = if value < 0 {
        -size
    } else {
        size
    };
    let signed_shown: int = if value < 0 {
        -(shown as int)
    } else {
        shown as int
    };
    assert(read == signed_shown * unit) by (nonlinear_arith)
        requires
            size == shown * unit,
            (read == -size && signed_shown == -(shown as int)) || (read == size && signed_shown
                == shown),
    ;
    vstd::arithmetic::div_mod::lemma_fundamental_div_mod_converse(
        read,
        unit as int,
        signed_shown,
        0,
    );
    assert(is_number(w) && text_written(w) == decimal_text(value, places));
}

/// The parts that a quantity is written in.
spec fn written_decimal(value: int, places: nat) -> Written {
    let magnitude: nat = if value < 0 {
        (-value) as nat
    } else {
        value as nat
    };
    let shown = rounded(magnitude, pow10((6 - places) as nat));
    Written {
        sign: if value < 0 {
            Some('-')
        } else {
            None
        },
        whole: decimal_digits(shown / pow10(places)),
        point: places > 0,
        fraction: padded_digits(shown, places),
        mark: None,
        exponent_sign: None,
        exponent: Seq::empty(),
    }
}

proof fn lemma_unit(places: nat)
    requires
        places <= 6,
    ensures
        1 <= pow10((6 - places) as nat) <= 1_000_000,
        1 <= pow10(places),
{
    lemma_pow10_positive((6 - places) as nat);
    lemma_pow10_positive(places);
    lemma_pow10_sum(places, (6 - places) as nat);
    assert(pow10(6) == 1_000_000) by {
        reveal_with_fuel(pow10, 7);
    }
    let unit = pow10((6 - places) as nat);
    let scale = pow10(places);
    assert(unit <= 1_000_000) by (nonlinear_arith)
        requires
            scale >= 1,
            scale * unit == 1_000_000,
    ;
}

/// Rounding is off by half a unit at most, and then ends even.
proof fn lemma_rounding(n: nat, unit: nat)
    requires
        unit >= 1,
    ensures
        -(unit as int) <= 2 * (rounded(n, unit) * unit - n) <= unit,
        2 * (rounded(n, unit) * unit - n) == unit || 2 * (rounded(n, unit) * unit - n) == -(
        unit as int) ==> rounded(n, unit) % 2 == 0,
{
    let quotient = n / unit;
    let rest = n % unit;
    assert(n == quotient * unit + rest && rest < unit) by (nonlinear_arith)
        requires
            unit >= 1,
            quotient == n / unit,
            rest == n % unit,
    ;
    assert((quotient + 1) * unit == quotient * unit + unit) by (nonlinear_arith);
}

proof fn lemma_written_form(value: int, places: nat)
    requires
        places <= 6,
    ensures
        is_number(written_decimal(value, places)),
        text_written(written_decimal(value, places)) == decimal_text(value, places),
        written_decimal(value, places).whole.len() >= 1,
        written_decimal(value, places).whole.len() > 1 ==> written_decimal(value, places).whole[0]
            != '0',
        written_decimal(value, places).fraction.len() == places,
{
    let w = written_decimal(value, places);
    let magnitude: nat = if value < 0 {
        (-value) as nat
    } else {
        value as nat
    };
    let shown = rounded(magnitude, pow10((6 - places) as nat));
    law_whole_numbers_read_back(shown / pow10(places));
    lemma_padded(shown, places);
    assert(text_written(w) =~= decimal_text(value, places));
}

proof fn lemma_written_worth(value: int, places: nat)
    requires
        places <= 6,
    ensures
        ({
            let magnitude: nat = if value < 0 {
                (-value) as nat
            } else {
                value as nat
            };
            let unit = pow10((6 - places) as nat);
            millionths(written_decimal(value, places)) == rounded(magnitude, unit) * unit
        }),
{
    let w = written_decimal(value, places);
    let magnitude: nat = if value < 0 {
        (-value) as nat
    } else {
        value as nat
    };
    let scale = pow10(places);
    let shown = rounded(magnitude, pow10((6 - places) as nat));
    lemma_unit(places);
    law_whole_numbers_read_back(shown / scale);
    lemma_padded(shown, places);
    law_digits_in_front(w.whole, w.fraction);
    assert((shown / scale) * scale + shown % scale == shown) by (nonlinear_arith)
        requires
            scale >= 1,
    ;
    assert(number(w.exponent) == 0);
}

} // verus!
