//! Fixed-point quantities with six decimals, and how they are written and read
//! in decimal.

use vstd::prelude::*;
use vstd::string::*;

use crate::text::{characters, decimal_digits, digit_char, push_digit, push_number};

verus! {

/// A physical quantity in millionths of its unit: 24.8 V is `24_800_000`.
///
/// Voltages, currents, percentages, frequencies and irradiances all use it.
pub type Micro = i64;

/// `10` to the power `n`.
pub open spec fn pow10(n: nat) -> nat
    decreases n,
{
    if n == 0 {
        1
    } else {
        10 * pow10((n - 1) as nat)
    }
}

// ---------------------------------------------------------------------------
// Writing
// ---------------------------------------------------------------------------
/// `n / unit` rounded to the nearest whole number, a half going to the even one.
pub open spec fn rounded(n: nat, unit: nat) -> nat {
    let quotient = n / unit;
    let rest = n % unit;
    if 2 * rest > unit || (2 * rest == unit && quotient % 2 == 1) {
        quotient + 1
    } else {
        quotient
    }
}

/// The last `width` decimal digits of `n`, zeros in front.
pub open spec fn padded_digits(n: nat, width: nat) -> Seq<char>
    decreases width,
{
    if width == 0 {
        Seq::empty()
    } else {
        padded_digits(n / 10, (width - 1) as nat).push(digit_char((n % 10) as int))
    }
}

/// A quantity written with `places` decimals, at most six.
pub open spec fn decimal_text(value: int, places: nat) -> Seq<char> {
    let magnitude: nat = if value < 0 {
        (-value) as nat
    } else {
        value as nat
    };
    let shown = rounded(magnitude, pow10((6 - places) as nat));
    let sign: Seq<char> = if value < 0 {
        seq!['-']
    } else {
        Seq::empty()
    };
    let whole = decimal_digits(shown / pow10(places));
    if places == 0 {
        sign + whole
    } else {
        sign + whole + seq!['.'] + padded_digits(shown, places)
    }
}

/// `10` to the power `n`, for the exponents that a decimal needs.
fn power_of_ten(n: u8) -> (p: u64)
    requires
        n <= 6,
    ensures
        p == pow10(n as nat),
        1 <= p <= 1_000_000,
{
    let mut p: u64 = 1;
    let mut i: u8 = 0;
    while i < n
        invariant
            i <= n <= 6,
            p == pow10(i as nat),
            i == 0 ==> p == 1,
            i == 1 ==> p == 10,
            i == 2 ==> p == 100,
            i == 3 ==> p == 1_000,
            i == 4 ==> p == 10_000,
            i == 5 ==> p == 100_000,
            i == 6 ==> p == 1_000_000,
        decreases n - i,
    {
        p = p * 10;
        i = i + 1;
    }
    p
}

/// Appends the last `width` decimal digits of `n`.
fn push_padded(out: &mut String, n: u64, width: u8)
    ensures
        final(out)@ == old(out)@ + padded_digits(n as nat, width as nat),
    decreases width,
{
    if width > 0 {
        push_padded(out, n / 10, width - 1);
        push_digit(out, (n % 10) as u8);
    }
    assert(out@ =~= old(out)@ + padded_digits(n as nat, width as nat));
}

/// Appends `value` with `places` decimals, rounded half to even.
pub fn push_decimal(out: &mut String, value: Micro, places: u8)
    requires
        places <= 6,
    ensures
        final(out)@ == old(out)@ + decimal_text(value as int, places as nat),
{
    let magnitude: u64 = if value < 0 {
        (-(value as i128)) as u64
    } else {
        value as u64
    };
    let unit: u64 = power_of_ten(6 - places);
    let quotient: u64 = magnitude / unit;
    let rest: u64 = magnitude % unit;
    assert(rest < unit) by (nonlinear_arith)
        requires
            rest == magnitude % unit,
            unit > 0,
    ;
    assert(quotient <= magnitude) by (nonlinear_arith)
        requires
            quotient == magnitude / unit,
            unit > 0,
    ;
    let shown: u64 = if 2 * rest > unit || (2 * rest == unit && quotient % 2 == 1) {
        quotient + 1
    } else {
        quotient
    };
    let scale: u64 = power_of_ten(places);
    if value < 0 {
        proof {
            reveal_strlit("-");
        }
        out.append("-");
        assert(out@ =~= old(out)@ + seq!['-']);
    }
    push_number(out, shown / scale);
    if places > 0 {
        proof {
            reveal_strlit(".");
        }
        out.append(".");
        push_padded(out, shown, places);
    }
    assert(out@ =~= old(out)@ + decimal_text(value as int, places as nat));
}

// ---------------------------------------------------------------------------
// Reading
// ---------------------------------------------------------------------------
/// Whether a character is a decimal digit.
pub open spec fn is_digit(c: char) -> bool {
    '0' <= c && c <= '9'
}

/// The value of a decimal digit.
pub open spec fn digit_of(c: char) -> nat {
    if is_digit(c) {
        (c as int - '0' as int) as nat
    } else {
        0
    }
}

/// Where the digits that start at `i` end.
pub open spec fn digits_end(s: Seq<char>, i: int) -> int
    decreases s.len() - i,
{
    if 0 <= i < s.len() && is_digit(s[i]) {
        digits_end(s, i + 1)
    } else {
        i
    }
}

/// The number that a row of digits writes.
pub open spec fn number(digits: Seq<char>) -> nat
    decreases digits.len(),
{
    if digits.len() == 0 {
        0
    } else {
        number(digits.drop_last()) * 10 + digit_of(digits.last())
    }
}

/// The number that the first `count` digits write, zeros behind them where there
/// are fewer.
pub open spec fn leading_number(digits: Seq<char>, count: int) -> nat {
    if count <= 0 {
        0
    } else if count <= digits.len() {
        number(digits.take(count))
    } else {
        number(digits) * pow10((count - digits.len()) as nat)
    }
}

/// A number as it is written: its sign, its digits, and how many of them stand
/// before the decimal point once the exponent is taken in.
pub struct Numeral {
    pub negative: bool,
    pub digits: Seq<char>,
    pub point: int,
}

/// The exponent that ends a number at `i`: none at the end of the text, else `e`
/// or `E`, a sign or none, and digits.
pub open spec fn exponent_at(s: Seq<char>, i: int) -> Option<int> {
    if i == s.len() {
        Some(0)
    } else if s[i] == 'e' || s[i] == 'E' {
        let signed = i + 1 < s.len() && (s[i + 1] == '+' || s[i + 1] == '-');
        let start = if signed {
            i + 2
        } else {
            i + 1
        };
        if start < s.len() && digits_end(s, start) == s.len() {
            let size = number(s.subrange(start, s.len() as int)) as int;
            Some(
                if signed && s[i + 1] == '-' {
                    -size
                } else {
                    size
                },
            )
        } else {
            None
        }
    } else {
        None
    }
}

/// Reads a number: a sign or none, digits with a decimal point among them or
/// none, at least one digit in all, and an exponent or none.
pub open spec fn numeral(s: Seq<char>) -> Option<Numeral> {
    let signed = s.len() > 0 && (s[0] == '+' || s[0] == '-');
    let start: int = if signed {
        1
    } else {
        0
    };
    let whole_end = digits_end(s, start);
    let has_point = whole_end < s.len() && s[whole_end] == '.';
    let fraction_start = if has_point {
        whole_end + 1
    } else {
        whole_end
    };
    let fraction_end = if has_point {
        digits_end(s, fraction_start)
    } else {
        whole_end
    };
    let digits = s.subrange(start, whole_end) + s.subrange(fraction_start, fraction_end);
    match exponent_at(s, fraction_end) {
        Some(exponent) => if digits.len() > 0 {
            Some(
                Numeral {
                    negative: signed && s[0] == '-',
                    digits,
                    point: whole_end - start + exponent,
                },
            )
        } else {
            None
        },
        None => None,
    }
}

/// The quantity that a text writes in decimal, cut off behind the sixth decimal;
/// `None` for a text that is no number, for a number too large to hold, and for `inf`
/// and `nan`, which no quantity can be.
pub open spec fn decimal_value(s: Seq<char>) -> Option<Micro> {
    match numeral(s) {
        Some(n) => {
            let size = leading_number(n.digits, n.point + 6) as int;
            if size > i64::MAX {
                None
            } else if n.negative {
                Some((-size) as i64)
            } else {
                Some(size as i64)
            }
        },
        None => None,
    }
}

/// The whole number that a text writes: `+` or no sign, and digits only; `None`
/// where it does not fit.
pub open spec fn count_value(s: Seq<char>) -> Option<u32> {
    let start: int = if s.len() > 0 && s[0] == '+' {
        1
    } else {
        0
    };
    if start < s.len() && digits_end(s, start) == s.len() && number(
        s.subrange(start, s.len() as int),
    ) <= u32::MAX {
        Some(number(s.subrange(start, s.len() as int)) as u32)
    } else {
        None
    }
}

/// Digits end within the text, and behind nothing but digits.
proof fn lemma_digits_end(s: Seq<char>, i: int)
    requires
        0 <= i <= s.len(),
    ensures
        i <= digits_end(s, i) <= s.len(),
        forall|j: int| i <= j < digits_end(s, i) ==> is_digit(#[trigger] s[j]),
        digits_end(s, i) < s.len() ==> !is_digit(s[digits_end(s, i)]),
    decreases s.len() - i,
{
    if i < s.len() && is_digit(s[i]) {
        lemma_digits_end(s, i + 1);
    }
}

/// More digits never write a smaller number.
proof fn lemma_number_grows(digits: Seq<char>, i: int, j: int)
    requires
        0 <= i <= j <= digits.len(),
    ensures
        number(digits.take(i)) <= number(digits.take(j)),
    decreases j - i,
{
    if i < j {
        lemma_number_grows(digits, i, j - 1);
        assert(digits.take(j).drop_last() =~= digits.take(j - 1));
    }
}

proof fn lemma_pow10_grows(i: nat, j: nat)
    requires
        i <= j,
    ensures
        1 <= pow10(i) <= pow10(j),
    decreases j,
{
    if i < j {
        lemma_pow10_grows(i, (j - 1) as nat);
    } else if i > 0 {
        lemma_pow10_grows((i - 1) as nat, (j - 1) as nat);
    }
}

/// `a * 10 ^ (i + 1)` is ten times `a * 10 ^ i`.
proof fn lemma_pow10_step(a: nat, i: nat)
    ensures
        a * pow10(i + 1) == a * pow10(i) * 10,
{
    assert(pow10(i + 1) == 10 * pow10(i));
    assert(a * (10 * pow10(i)) == a * pow10(i) * 10) by (nonlinear_arith);
}

/// Where the digits that start at `i` end.
fn find_digits_end(s: &Vec<char>, i: usize) -> (end: usize)
    requires
        i <= s@.len(),
    ensures
        end == digits_end(s@, i as int),
        i <= end <= s@.len(),
{
    let mut end: usize = i;
    while end < s.len() && is_decimal_digit(s[end])
        invariant
            i <= end <= s@.len(),
            digits_end(s@, i as int) == digits_end(s@, end as int),
        decreases s@.len() - end,
    {
        end = end + 1;
    }
    end
}

/// Whether a character is a decimal digit.
fn is_decimal_digit(c: char) -> (b: bool)
    ensures
        b == is_digit(c),
{
    '0' <= c && c <= '9'
}

/// The value of a decimal digit.
fn digit_value(c: char) -> (value: u8)
    requires
        is_digit(c),
    ensures
        value == digit_of(c),
        value < 10,
{
    (c as u32 - '0' as u32) as u8
}

/// How far a whole number is counted. As an exponent, anything beyond it moves
/// the point past every digit that a text can hold.
const COUNT_LIMIT: i128 = 1_000_000_000_000_000_000_000_000;

/// The number that the digits from `start` to the end write, or any number from
/// `COUNT_LIMIT` on where it is that large.
fn read_capped(s: &Vec<char>, start: usize) -> (size: i128)
    requires
        start <= s@.len(),
        digits_end(s@, start as int) == s@.len(),
    ensures
        0 <= size <= 10 * COUNT_LIMIT + 9,
        size < COUNT_LIMIT ==> size == number(s@.subrange(start as int, s@.len() as int)),
        size >= COUNT_LIMIT ==> number(s@.subrange(start as int, s@.len() as int))
            >= COUNT_LIMIT,
{
    let ghost digits = s@.subrange(start as int, s@.len() as int);
    proof {
        lemma_digits_end(s@, start as int);
    }
    let mut size: i128 = 0;
    let mut i: usize = start;
    assert(digits.take(0) =~= Seq::empty());
    while i < s.len() && size < COUNT_LIMIT
        invariant
            start <= i <= s@.len(),
            digits == s@.subrange(start as int, s@.len() as int),
            forall|j: int| start <= j < s@.len() ==> is_digit(#[trigger] s@[j]),
            0 <= size <= 10 * COUNT_LIMIT + 9,
            size == number(digits.take(i - start)),
        decreases s@.len() - i,
    {
        assert(digits.take(i + 1 - start).drop_last() =~= digits.take(i - start));
        assert(digits.take(i + 1 - start).last() == s@[i as int]);
        size = size * 10 + digit_value(s[i]) as i128;
        i = i + 1;
    }
    proof {
        lemma_number_grows(digits, i - start, digits.len() as int);
        assert(digits.take(digits.len() as int) =~= digits);
    }
    size
}

/// The number that the first `count` digits write, `None` where it is too large.
fn read_leading(digits: &Vec<char>, count: i128) -> (size: Option<i64>)
    requires
        forall|j: int| 0 <= j < digits@.len() ==> is_digit(#[trigger] digits@[j]),
    ensures
        match size {
            Some(n) => n >= 0 && n == leading_number(digits@, count as int),
            None => leading_number(digits@, count as int) > i64::MAX,
        },
{
    if count <= 0 {
        return Some(0);
    }
    let len: usize = digits.len();
    let mut size: i128 = 0;
    let mut i: usize = 0;
    assert(digits@.take(0) =~= Seq::empty());
    while i < len && (i as i128) < count
        invariant
            i <= len,
            len == digits@.len(),
            i <= count,
            count > 0,
            forall|j: int| 0 <= j < digits@.len() ==> is_digit(#[trigger] digits@[j]),
            0 <= size <= i64::MAX,
            size == number(digits@.take(i as int)),
        decreases len - i,
    {
        assert(digits@.take(i + 1).drop_last() =~= digits@.take(i as int));
        assert(digits@.take(i + 1).last() == digits@[i as int]);
        size = size * 10 + digit_value(digits[i]) as i128;
        i = i + 1;
        if size > i64::MAX as i128 {
            proof {
                if count <= len {
                    lemma_number_grows(digits@, i as int, count as int);
                } else {
                    lemma_number_grows(digits@, i as int, len as int);
                    assert(digits@.take(len as int) =~= digits@);
                    lemma_pow10_grows(0, (count - len) as nat);
                    let all = number(digits@);
                    let scale = pow10((count - len) as nat);
                    assert(all * scale >= all) by (nonlinear_arith)
                        requires
                            scale >= 1,
                    ;
                }
            }
            return None;
        }
    }
    if count <= len as i128 {
        return Some(size as i64);
    }
    assert(digits@.take(len as int) =~= digits@);
    if size == 0 {
        assert(0 * pow10((count - len) as nat) == 0);
        return Some(0);
    }
    let ghost all = number(digits@);
    let zeros: i128 = count - len as i128;
    let mut added: i128 = 0;
    assert(pow10(0) == 1 && all * 1 == all);
    while added < zeros
        invariant
            0 <= added <= zeros,
            zeros == count - len,
            zeros > 0,
            len == digits@.len(),
            all == number(digits@),
            1 <= size <= i64::MAX,
            size == all * pow10(added as nat),
        decreases zeros - added,
    {
        proof {
            lemma_pow10_step(all, added as nat);
        }
        size = size * 10;
        added = added + 1;
        if size > i64::MAX as i128 {
            proof {
                lemma_pow10_grows(added as nat, zeros as nat);
                let low = pow10(added as nat);
                let high = pow10(zeros as nat);
                assert(all * high >= all * low) by (nonlinear_arith)
                    requires
                        high >= low,
                ;
            }
            assert(leading_number(digits@, count as int) == all * pow10(zeros as nat));
            return None;
        }
    }
    Some(size as i64)
}

/// Beyond the digits of a number, moving the point further keeps the number
/// either zero or too large.
proof fn lemma_far_point(digits: Seq<char>, near: int, far: int)
    requires
        digits.len() + 20 <= near <= far,
    ensures
        leading_number(digits, near) > i64::MAX <==> leading_number(digits, far) > i64::MAX,
        leading_number(digits, near) <= i64::MAX ==> leading_number(digits, near)
            == leading_number(digits, far),
{
    let all = number(digits);
    let a = pow10((near - digits.len()) as nat);
    let b = pow10((far - digits.len()) as nat);
    lemma_pow10_grows(20, (near - digits.len()) as nat);
    lemma_pow10_grows((near - digits.len()) as nat, (far - digits.len()) as nat);
    reveal_with_fuel(pow10, 21);
    assert(pow10(20) > i64::MAX);
    if all == 0 {
        assert(all * a == 0 && all * b == 0) by (nonlinear_arith)
            requires
                all == 0,
        ;
    } else {
        assert(all * a >= a && all * b >= b) by (nonlinear_arith)
            requires
                all >= 1,
        ;
    }
}

/// Whether an exponent counts as another: they are equal, or both beyond the
/// limit on the same side.
spec fn counts_as(read: int, written: int) -> bool {
    ||| read == written
    ||| read >= COUNT_LIMIT && written >= COUNT_LIMIT
    ||| read <= -COUNT_LIMIT && written <= -COUNT_LIMIT
}

/// Reads the exponent that ends a number at `i`.
fn read_exponent_at(s: &Vec<char>, i: usize) -> (exponent: Option<i128>)
    requires
        i <= s@.len(),
    ensures
        match exponent {
            Some(read) => exponent_at(s@, i as int) is Some && counts_as(
                read as int,
                exponent_at(s@, i as int)->0,
            ) && -10 * COUNT_LIMIT - 9 <= read <= 10 * COUNT_LIMIT + 9,
            None => exponent_at(s@, i as int) is None,
        },
{
    let len: usize = s.len();
    if i == len {
        return Some(0);
    }
    if !(s[i] == 'e' || s[i] == 'E') {
        return None;
    }
    let signed: bool = i + 1 < len && (s[i + 1] == '+' || s[i + 1] == '-');
    let start: usize = if signed {
        i + 2
    } else {
        i + 1
    };
    if start >= len || find_digits_end(s, start) != len {
        return None;
    }
    let size: i128 = read_capped(s, start);
    if signed && s[i + 1] == '-' {
        Some(-size)
    } else {
        Some(size)
    }
}

/// Two runs of digits as one.
fn gather_digits(
    s: &Vec<char>,
    whole_start: usize,
    whole_end: usize,
    fraction_start: usize,
    fraction_end: usize,
) -> (digits: Vec<char>)
    requires
        whole_start <= whole_end <= s@.len(),
        fraction_start <= fraction_end <= s@.len(),
        forall|j: int| whole_start <= j < whole_end ==> is_digit(#[trigger] s@[j]),
        forall|j: int| fraction_start <= j < fraction_end ==> is_digit(#[trigger] s@[j]),
    ensures
        digits@ == s@.subrange(whole_start as int, whole_end as int) + s@.subrange(
            fraction_start as int,
            fraction_end as int,
        ),
        forall|j: int| 0 <= j < digits@.len() ==> is_digit(#[trigger] digits@[j]),
{
    let mut digits: Vec<char> = Vec::new();
    let mut i: usize = whole_start;
    while i < whole_end
        invariant
            whole_start <= i <= whole_end <= s@.len(),
            digits@ == s@.subrange(whole_start as int, i as int),
        decreases whole_end - i,
    {
        digits.push(s[i]);
        i = i + 1;
        assert(digits@ =~= s@.subrange(whole_start as int, i as int));
    }
    i = fraction_start;
    let ghost whole = s@.subrange(whole_start as int, whole_end as int);
    assert(digits@ =~= whole + s@.subrange(fraction_start as int, i as int));
    while i < fraction_end
        invariant
            fraction_start <= i <= fraction_end <= s@.len(),
            digits@ == whole + s@.subrange(fraction_start as int, i as int),
        decreases fraction_end - i,
    {
        digits.push(s[i]);
        i = i + 1;
        assert(digits@ =~= whole + s@.subrange(fraction_start as int, i as int));
    }
    assert forall|j: int| 0 <= j < digits@.len() implies is_digit(#[trigger] digits@[j]) by {
        if j < whole_end - whole_start {
            assert(digits@[j] == s@[whole_start + j]);
        } else {
            assert(digits@[j] == s@[fraction_start + (j - (whole_end - whole_start))]);
        }
    }
    digits
}

/// Reads a quantity written in decimal.
pub fn parse_decimal(text: &str) -> (value: Option<Micro>)
    ensures
        value == decimal_value(text@),
{
    let s: Vec<char> = characters(text);
    let len: usize = s.len();
    let signed: bool = len > 0 && (s[0] == '+' || s[0] == '-');
    let negative: bool = signed && s[0] == '-';
    let start: usize = if signed {
        1
    } else {
        0
    };
    let whole_end: usize = find_digits_end(&s, start);
    let has_point: bool = whole_end < len && s[whole_end] == '.';
    let fraction_start: usize = if has_point {
        whole_end + 1
    } else {
        whole_end
    };
    let fraction_end: usize = if has_point {
        find_digits_end(&s, fraction_start)
    } else {
        whole_end
    };
    proof {
        lemma_digits_end(s@, start as int);
        lemma_digits_end(s@, fraction_start as int);
    }
    let exponent: i128 = match read_exponent_at(&s, fraction_end) {
        Some(exponent) => exponent,
        None => {
            return None;
        },
    };
    let digits: Vec<char> = gather_digits(&s, start, whole_end, fraction_start, fraction_end);
    if digits.len() == 0 {
        return None;
    }
    let point: i128 = (whole_end - start) as i128 + exponent;
    let ghost written = exponent_at(s@, fraction_end as int)->0;
    let ghost true_point = whole_end - start + written;
    assert(numeral(text@) == Some(Numeral { negative, digits: digits@, point: true_point }));
    proof {
        assert(digits.len() <= usize::MAX);
        if exponent != written && exponent >= COUNT_LIMIT {
            if point <= true_point {
                lemma_far_point(digits@, point + 6, true_point + 6);
            } else {
                lemma_far_point(digits@, true_point + 6, point + 6);
            }
        }
    }
    match read_leading(&digits, point + 6) {
        Some(size) => Some(
            if negative {
                -size
            } else {
                size
            },
        ),
        None => None,
    }
}

/// Reads a whole number.
pub fn parse_count(text: &str) -> (value: Option<u32>)
    ensures
        value == count_value(text@),
{
    let s: Vec<char> = characters(text);
    let len: usize = s.len();
    let start: usize = if len > 0 && s[0] == '+' {
        1
    } else {
        0
    };
    if start >= len || find_digits_end(&s, start) != len {
        return None;
    }
    let size: i128 = read_capped(&s, start);
    if size <= u32::MAX as i128 {
        Some(size as u32)
    } else {
        None
    }
}

} // verus!
