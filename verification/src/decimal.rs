//! Figures as decimal text: writing them and reading them back.

use crate::record::{fits, narrow};
use vstd::prelude::*;

verus! {

/// The character of a decimal digit.
pub open spec fn digit(d: int) -> char
    recommends
        0 <= d < 10,
{
    ((48 + d) as u8) as char
}

/// A natural number in decimal, without leading zeros.
pub open spec fn digits(n: nat) -> Seq<char>
    decreases n,
{
    if n < 10 {
        seq![digit(n as int)]
    } else {
        digits(n / 10).push(digit((n % 10) as int))
    }
}

/// The last `width` decimal digits of a natural number, zeros included.
pub open spec fn padded(n: nat, width: nat) -> Seq<char>
    decreases width,
{
    if width == 0 {
        Seq::empty()
    } else {
        padded(n / 10, (width - 1) as nat).push(digit((n % 10) as int))
    }
}

/// The last `width` decimal digits of a natural number without the zeros
/// at their end; nothing where all of them are zero.
pub open spec fn trimmed(n: nat, width: nat) -> Seq<char>
    decreases width,
{
    if width == 0 {
        Seq::empty()
    } else if n % 10 == 0 {
        trimmed(n / 10, (width - 1) as nat)
    } else {
        padded(n, width)
    }
}

/// A number of millionths as decimal text: the whole part, and where the
/// rest is not zero a point and the decimals, up to six, without zeros at
/// their end. So 60_000_000 reads `60` and 500_000 reads `0.5`.
pub open spec fn unsigned_decimal(size: nat) -> Seq<char> {
    let whole = digits(size / 1_000_000);
    if size % 1_000_000 == 0 {
        whole
    } else {
        whole + seq!['.'] + trimmed(size % 1_000_000, 6)
    }
}

/// A figure kept in millionths, as decimal text: a minus sign where it is
/// negative, then its size.
pub open spec fn decimal(v: int) -> Seq<char> {
    let size = if v < 0 {
        -v
    } else {
        v
    };
    let sign = if v < 0 {
        seq!['-']
    } else {
        Seq::empty()
    };
    sign + unsigned_decimal(size as nat)
}

/// The character is a decimal digit.
pub open spec fn is_digit(c: char) -> bool {
    '0' <= c && c <= '9'
}

/// What a digit's character is worth.
pub open spec fn digit_value(c: char) -> int {
    c as int - 48
}

/// The text is made of digits alone.
pub open spec fn all_digits(s: Seq<char>) -> bool {
    forall|i: int| 0 <= i < s.len() ==> is_digit(#[trigger] s[i])
}

/// The number that a row of digits spells.
pub open spec fn number(s: Seq<char>) -> int
    decreases s.len(),
{
    if s.len() == 0 {
        0
    } else {
        number(s.drop_last()) * 10 + digit_value(s.last())
    }
}

/// What the digits behind the point are worth, where the first of them
/// counts `weight`, the next a tenth of that (rounded down), and so on.
pub open spec fn fraction(s: Seq<char>, weight: int) -> int
    decreases s.len(),
{
    if s.len() == 0 {
        0
    } else {
        digit_value(s[0]) * weight + fraction(s.drop_first(), weight / 10)
    }
}

/// The index of the first point at or behind `from`, or the length of the
/// text where there is none.
pub open spec fn point_at(s: Seq<char>, from: int) -> int
    decreases s.len() - from,
{
    if from < 0 || from >= s.len() {
        s.len() as int
    } else if s[from] == '.' {
        from
    } else {
        point_at(s, from + 1)
    }
}

/// The value, in millionths, of text without a sign: digits, at least one,
/// and then perhaps a point and more digits, of which those behind the sixth
/// are dropped. Other text has no value.
pub open spec fn parse_unsigned(body: Seq<char>) -> Option<int> {
    let point = point_at(body, 0);
    let whole = body.take(point);
    let decimals = if point < body.len() {
        body.skip(point + 1)
    } else {
        Seq::empty()
    };
    if whole.len() > 0 && all_digits(whole) && all_digits(decimals) {
        Some(number(whole) * 1_000_000 + fraction(decimals, 100_000))
    } else {
        None
    }
}

/// The value, in millionths, of decimal text with or without a minus sign
/// before it.
pub open spec fn parse_decimal(s: Seq<char>) -> Option<int> {
    if s.len() > 0 && s[0] == '-' {
        match parse_unsigned(s.skip(1)) {
            Some(size) => Some(-size),
            None => None,
        }
    } else {
        parse_unsigned(s)
    }
}

/// The figure that the text stands for, where it is decimal text and the
/// value can be kept.
pub open spec fn figure(s: Seq<char>) -> Option<i64> {
    match parse_decimal(s) {
        Some(v) => if fits(v) {
            Some(v as i64)
        } else {
            None
        },
        None => None,
    }
}

/// Writes one digit at the end of `out`.
fn push_digit(out: &mut String, d: u64)
    requires
        d < 10,
    ensures
        final(out)@ == old(out)@.push(digit(d as int)),
{
    out.push((48u8 + d as u8) as char);
}

/// Writes a number in decimal at the end of `out`.
fn push_digits(out: &mut String, n: u64)
    ensures
        final(out)@ == old(out)@ + digits(n as nat),
    decreases n,
{
    if n >= 10 {
        push_digits(out, n / 10);
    }
    push_digit(out, n % 10);
    assert(out@ =~= old(out)@ + digits(n as nat));
}

/// Writes the last `width` digits of a number at the end of `out`.
fn push_padded(out: &mut String, n: u64, width: u8)
    ensures
        final(out)@ == old(out)@ + padded(n as nat, width as nat),
    decreases width,
{
    if width > 0 {
        push_padded(out, n / 10, width - 1);
        push_digit(out, n % 10);
    }
    assert(out@ =~= old(out)@ + padded(n as nat, width as nat));
}

/// Writes the last `width` digits of a number at the end of `out`, but for
/// the zeros at their end.
fn push_trimmed(out: &mut String, n: u64, width: u8)
    ensures
        final(out)@ == old(out)@ + trimmed(n as nat, width as nat),
{
    let mut rest = n;
    let mut left = width;
    while left > 0 && rest % 10 == 0
        invariant
            trimmed(rest as nat, left as nat) == trimmed(n as nat, width as nat),
        decreases left,
    {
        rest = rest / 10;
        left = left - 1;
    }
    if left > 0 {
        push_padded(out, rest, left);
    }
    assert(out@ =~= old(out)@ + trimmed(n as nat, width as nat));
}

/// Writes a figure as decimal text at the end of `out`.
pub fn push_decimal(out: &mut String, v: i64)
    ensures
        final(out)@ == old(out)@ + decimal(v as int),
{
    let size: u64 = if v < 0 {
        out.push('-');
        (-(v as i128)) as u64
    } else {
        v as u64
    };
    push_digits(out, size / 1_000_000);
    if size % 1_000_000 != 0 {
        out.push('.');
        push_trimmed(out, size % 1_000_000, 6);
    }
    assert(out@ =~= old(out)@ + decimal(v as int));
}

/// The first point at or behind `from` lies between `from` and the end of
/// the text, and where it lies within the text a point stands there.
proof fn lemma_point_at_bounds(s: Seq<char>, from: int)
    requires
        0 <= from <= s.len(),
    ensures
        from <= point_at(s, from) <= s.len(),
        point_at(s, from) < s.len() ==> s[point_at(s, from)] == '.',
    decreases s.len() - from,
{
    if from < s.len() && s[from] != '.' {
        lemma_point_at_bounds(s, from + 1);
    }
}

/// Digits spell no negative number.
proof fn lemma_number_bounds(s: Seq<char>)
    requires
        all_digits(s),
    ensures
        number(s) >= 0,
    decreases s.len(),
{
    if s.len() > 0 {
        assert(is_digit(s[s.len() - 1]));
        assert forall|i: int| 0 <= i < s.drop_last().len() implies is_digit(
            #[trigger] s.drop_last()[i],
        ) by {
            assert(s.drop_last()[i] == s[i]);
        }
        lemma_number_bounds(s.drop_last());
    }
}

/// What the character is worth, if it is a digit.
fn digit_of(c: char) -> (d: Option<u8>)
    ensures
        d is Some <==> is_digit(c),
        d is Some ==> d.unwrap() == digit_value(c) && d.unwrap() < 10,
{
    if '0' <= c && c <= '9' {
        Some((c as u32 - 48) as u8)
    } else {
        None
    }
}

/// Reads the text without a sign that begins at `start`.
fn read_unsigned(text: &Vec<char>, start: usize) -> (size: Option<u128>)
    requires
        start <= text@.len(),
    ensures
        size is Some ==> size.unwrap() <= 10_000_000_000_000_000_000 && parse_unsigned(
            text@.skip(start as int),
        ) == Some(size.unwrap() as int),
        size is None ==> parse_unsigned(text@.skip(start as int)) is None || parse_unsigned(
            text@.skip(start as int),
        ).unwrap() >= 10_000_000_000_000_000_000,
{
    let ghost body = text@.skip(start as int);
    let n = text.len();
    let mut i = start;
    let mut whole: u128 = 0;
    let mut stopped = false;
    while i < n && !stopped
        invariant
            body == text@.skip(start as int),
            n == text@.len(),
            start <= i <= n,
            all_digits(body.take(i - start)),
            point_at(body, 0) == point_at(body, i - start),
            whole <= 10_000_000_000_000,
            whole < 10_000_000_000_000 ==> whole == number(body.take(i - start)),
            whole == 10_000_000_000_000 ==> number(body.take(i - start)) >= 10_000_000_000_000,
            stopped ==> i < n && !is_digit(text@[i as int]),
        decreases n - i + if stopped { 0int } else { 1int },
    {
        match digit_of(text[i]) {
            Some(d) => {
                proof {
                    let k = i - start;
                    assert(body[k] == text@[i as int]);
                    assert(body.take(k + 1).drop_last() =~= body.take(k));
                    assert(body.take(k + 1).last() == body[k]);
                    assert forall|j: int| 0 <= j < k + 1 implies is_digit(
                        #[trigger] body.take(k + 1)[j],
                    ) by {
                        if j < k {
                            assert(body.take(k)[j] == body[j]);
                        }
                    }
                    lemma_number_bounds(body.take(k));
                }
                let next = whole * 10 + d as u128;
                whole = if next >= 10_000_000_000_000 {
                    10_000_000_000_000
                } else {
                    next
                };
                i += 1;
            },
            None => {
                stopped = true;
            },
        }
    }
    let ghost k = i - start;
    let ghost point = point_at(body, 0);
    proof {
        lemma_point_at_bounds(body, k);
        if i < n {
            assert(body[k] == text@[i as int]);
        }
    }
    if i == start {
        proof {
            if point > 0 {
                assert(body.take(point)[0] == body[0]);
            }
        }
        return None;
    }
    if i < n && text[i] != '.' {
        proof {
            assert(point > k);
            assert(body.take(point)[k] == body[k]);
        }
        return None;
    }
    assert(point == k);
    let mut decimals: u128 = 0;
    let ghost tail = if point < body.len() {
        body.skip(point + 1)
    } else {
        Seq::empty()
    };
    if i < n {
        let first = i + 1;
        let mut j = first;
        let mut weight: u128 = 100_000;
        proof {
            assert(tail.skip(0) =~= tail);
            assert(tail.take(0) =~= Seq::<char>::empty());
        }
        while j < n
            invariant
                n == text@.len(),
                first <= j <= n,
                first == start + point + 1,
                body == text@.skip(start as int),
                tail == body.skip(point + 1),
                tail.len() == n - first,
                0 <= point < body.len(),
                point == point_at(body, 0),
                all_digits(tail.take(j - first)),
                decimals + fraction(tail.skip(j - first), weight as int) == fraction(tail, 100_000),
                decimals + 10 * weight <= 1_000_000,
            decreases n - j,
        {
            let ghost m = j - first;
            proof {
                assert(tail[m] == body[point + 1 + m]);
                assert(body[point + 1 + m] == text@[start + point + 1 + m]);
                assert(tail[m] == text@[j as int]);
                assert(tail.skip(m).drop_first() =~= tail.skip(m + 1));
                assert(tail.skip(m)[0] == tail[m]);
            }
            match digit_of(text[j]) {
                Some(d) => {
                    proof {
                        assert forall|x: int| 0 <= x < m + 1 implies is_digit(
                            #[trigger] tail.take(m + 1)[x],
                        ) by {
                            if x < m {
                                assert(tail.take(m)[x] == tail[x]);
                            }
                        }
                        assert(d * weight <= 9 * weight) by (nonlinear_arith)
                            requires
                                d <= 9,
                                weight >= 0,
                        ;
                    }
                    decimals = decimals + d as u128 * weight;
                    weight = weight / 10;
                    j += 1;
                },
                None => {
                    proof {
                        assert(!is_digit(tail[m]));
                        assert(!all_digits(tail));
                    }
                    return None;
                },
            }
        }
        proof {
            assert(tail.take(j - first) =~= tail);
            assert(tail.skip(j - first).len() == 0);
        }
    } else {
        proof {
            assert(tail.len() == 0);
        }
    }
    proof {
        assert(body.take(point) =~= body.take(k));
        lemma_number_bounds(body.take(point));
    }
    if whole >= 10_000_000_000_000 {
        return None;
    }
    Some(whole * 1_000_000 + decimals)
}

/// Reads a figure from decimal text.
pub fn parse_figure(text: &Vec<char>) -> (value: Option<i64>)
    ensures
        value == figure(text@),
{
    let negative = text.len() > 0 && text[0] == '-';
    let start: usize = if negative {
        1
    } else {
        0
    };
    assert(text@.skip(0) =~= text@);
    match read_unsigned(text, start) {
        Some(size) => {
            let signed: i128 = if negative {
                -(size as i128)
            } else {
                size as i128
            };
            narrow(signed)
        },
        None => None,
    }
}

/// A digit's character is a digit and is worth the digit.
proof fn lemma_digit(d: int)
    requires
        0 <= d < 10,
    ensures
        is_digit(digit(d)),
        digit_value(digit(d)) == d,
        digit(d) != '.',
        digit(d) != '-',
{
}

/// The decimal digits of a number are digits, at least one, and spell the
/// number.
proof fn lemma_digits(n: nat)
    ensures
        digits(n).len() > 0,
        all_digits(digits(n)),
        number(digits(n)) == n,
    decreases n,
{
    lemma_digit((n % 10) as int);
    if n >= 10 {
        lemma_digits(n / 10);
        let front = digits(n / 10);
        let all = front.push(digit((n % 10) as int));
        assert(all.drop_last() =~= front);
        assert forall|i: int| 0 <= i < all.len() implies is_digit(#[trigger] all[i]) by {
            if i < front.len() {
                assert(all[i] == front[i]);
            }
        }
    } else {
        let all = seq![digit(n as int)];
        assert(all.drop_last() =~= Seq::<char>::empty());
        assert(number(all.drop_last()) == 0);
    }
}

/// The six decimal places of a number below a million are digits and are
/// worth the number.
proof fn lemma_padded(n: nat)
    requires
        n < 1_000_000,
    ensures
        padded(n, 6).len() == 6,
        all_digits(padded(n, 6)),
        fraction(padded(n, 6), 100_000) == n,
{
    let d0 = (n % 10) as int;
    let d1 = ((n / 10) % 10) as int;
    let d2 = ((n / 100) % 10) as int;
    let d3 = ((n / 1000) % 10) as int;
    let d4 = ((n / 10000) % 10) as int;
    let d5 = ((n / 100000) % 10) as int;
    lemma_digit(d0);
    lemma_digit(d1);
    lemma_digit(d2);
    lemma_digit(d3);
    lemma_digit(d4);
    lemma_digit(d5);
    let s6 = seq![digit(d5), digit(d4), digit(d3), digit(d2), digit(d1), digit(d0)];
    let s5 = seq![digit(d4), digit(d3), digit(d2), digit(d1), digit(d0)];
    let s4 = seq![digit(d3), digit(d2), digit(d1), digit(d0)];
    let s3 = seq![digit(d2), digit(d1), digit(d0)];
    let s2 = seq![digit(d1), digit(d0)];
    let s1 = seq![digit(d0)];
    let s0 = Seq::<char>::empty();
    assert(padded(n / 1000000, 0) =~= s0);
    assert(n / 10 / 10 == n / 100 && n / 100 / 10 == n / 1000 && n / 1000 / 10 == n / 10000 && n
        / 10000 / 10 == n / 100000 && n / 100000 / 10 == n / 1000000);
    assert(padded(n / 100000, 1) =~= seq![digit(d5)]);
    assert(padded(n / 10000, 2) =~= seq![digit(d5), digit(d4)]);
    assert(padded(n / 1000, 3) =~= seq![digit(d5), digit(d4), digit(d3)]);
    assert(padded(n / 100, 4) =~= seq![digit(d5), digit(d4), digit(d3), digit(d2)]);
    assert(padded(n / 10, 5) =~= seq![digit(d5), digit(d4), digit(d3), digit(d2), digit(d1)]);
    assert(padded(n, 6) =~= s6);
    assert(s6.drop_first() =~= s5);
    assert(s5.drop_first() =~= s4);
    assert(s4.drop_first() =~= s3);
    assert(s3.drop_first() =~= s2);
    assert(s2.drop_first() =~= s1);
    assert(s1.drop_first() =~= s0);
    assert(fraction(s0, 0) == 0);
    assert(fraction(s1, 1) == d0);
    assert(fraction(s2, 10) == d1 * 10 + d0);
    assert(fraction(s3, 100) == d2 * 100 + d1 * 10 + d0);
    assert(fraction(s4, 1000) == d3 * 1000 + d2 * 100 + d1 * 10 + d0);
    assert(fraction(s5, 10000) == d4 * 10000 + d3 * 1000 + d2 * 100 + d1 * 10 + d0);
    assert(fraction(s6, 100000) == d5 * 100000 + d4 * 10000 + d3 * 1000 + d2 * 100 + d1 * 10
        + d0);
}

/// The last `width` digits of a number are digits, `width` of them.
proof fn lemma_padded_digits(n: nat, width: nat)
    ensures
        padded(n, width).len() == width,
        all_digits(padded(n, width)),
    decreases width,
{
    if width > 0 {
        lemma_padded_digits(n / 10, (width - 1) as nat);
        lemma_digit((n % 10) as int);
        let front = padded(n / 10, (width - 1) as nat);
        let all = front.push(digit((n % 10) as int));
        assert forall|i: int| 0 <= i < all.len() implies is_digit(#[trigger] all[i]) by {
            if i < front.len() {
                assert(all[i] == front[i]);
            }
        }
    }
}

/// A zero at the end of the decimals adds nothing to their worth.
proof fn lemma_zero_at_end(s: Seq<char>, weight: int)
    ensures
        fraction(s.push('0'), weight) == fraction(s, weight),
    decreases s.len(),
{
    let longer = s.push('0');
    if s.len() == 0 {
        assert(longer.drop_first() =~= Seq::<char>::empty());
        assert(fraction(longer.drop_first(), weight / 10) == 0);
    } else {
        assert(longer[0] == s[0]);
        assert(longer.drop_first() =~= s.drop_first().push('0'));
        lemma_zero_at_end(s.drop_first(), weight / 10);
    }
}

/// The decimals without the zeros at their end are digits and are worth
/// what they are worth with them.
proof fn lemma_trimmed(n: nat, width: nat, weight: int)
    ensures
        all_digits(trimmed(n, width)),
        fraction(trimmed(n, width), weight) == fraction(padded(n, width), weight),
    decreases width,
{
    if width > 0 {
        if n % 10 == 0 {
            lemma_trimmed(n / 10, (width - 1) as nat, weight);
            lemma_zero_at_end(padded(n / 10, (width - 1) as nat), weight);
            assert(digit(0) == '0');
        } else {
            lemma_padded_digits(n, width);
        }
    }
}

/// Behind digits that end in a point, the first point is that one.
proof fn lemma_point_behind_digits(body: Seq<char>, front: int, from: int)
    requires
        0 <= from <= front < body.len(),
        body[front] == '.',
        forall|i: int| 0 <= i < front ==> is_digit(#[trigger] body[i]),
    ensures
        point_at(body, from) == front,
    decreases front - from,
{
    if from < front {
        assert(is_digit(body[from]));
        lemma_point_behind_digits(body, front, from + 1);
    }
}

/// Digits hold no point.
proof fn lemma_no_point_in_digits(body: Seq<char>, from: int)
    requires
        0 <= from <= body.len(),
        all_digits(body),
    ensures
        point_at(body, from) == body.len(),
    decreases body.len() - from,
{
    if from < body.len() {
        assert(is_digit(body[from]));
        lemma_no_point_in_digits(body, from + 1);
    }
}

/// The text that a size is written as has no sign and reads as the size.
proof fn lemma_unsigned_reads_back(size: nat)
    ensures
        parse_unsigned(unsigned_decimal(size)) == Some(size as int),
        unsigned_decimal(size)[0] != '-',
{
    let front = digits(size / 1_000_000);
    let rest = size % 1_000_000;
    let body = unsigned_decimal(size);
    lemma_digits(size / 1_000_000);
    let k = front.len() as int;
    assert(is_digit(front[0]));
    if rest == 0 {
        lemma_no_point_in_digits(body, 0);
        assert(body.take(k) =~= front);
        assert(fraction(Seq::<char>::empty(), 100_000) == 0);
    } else {
        let back = trimmed(rest, 6);
        lemma_padded(rest);
        lemma_trimmed(rest, 6, 100_000);
        assert(body[k] == '.');
        assert forall|i: int| 0 <= i < k implies is_digit(#[trigger] body[i]) by {
            assert(body[i] == front[i]);
        }
        assert(body[0] == front[0]);
        lemma_point_behind_digits(body, k, 0);
        assert(body.take(k) =~= front);
        assert(body.skip(k + 1) =~= back);
    }
}

/// A figure that was written as decimal text reads back as itself: what
/// `to_csv` puts into a field, `parse_figure` finds there.
pub proof fn law_written_figure_reads_back(v: i64)
    ensures
        figure(decimal(v as int)) == Some(v),
{
    let size: nat = if v < 0 {
        (-v) as nat
    } else {
        v as nat
    };
    lemma_unsigned_reads_back(size);
    let body = unsigned_decimal(size);
    if v < 0 {
        let text = decimal(v as int);
        assert(text =~= seq!['-'] + body);
        assert(text[0] == '-');
        assert(text.skip(1) =~= body);
    } else {
        assert(decimal(v as int) =~= body);
    }
}

} // verus!
