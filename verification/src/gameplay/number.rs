//! Numbers written as text: the decimal values that extra parameters carry.

use vstd::prelude::*;
use vstd::string::*;

verus! {

pub open spec fn is_digit(c: char) -> bool {
    '0' as int <= c as int <= '9' as int
}

/// Value of a decimal digit.
pub open spec fn digit_value(c: char) -> nat {
    (c as int - '0' as int) as nat
}

/// Value of a run of decimal digits, most significant first.
pub open spec fn decimal_value(s: Seq<char>) -> nat
    decreases s.len(),
{
    if s.len() == 0 {
        0
    } else {
        decimal_value(s.drop_last()) * 10 + digit_value(s.last())
    }
}

pub open spec fn all_digits(s: Seq<char>) -> bool {
    forall|i: int| 0 <= i < s.len() ==> is_digit(#[trigger] s[i])
}

/// The number that `s` denotes: one or more decimal digits, which a single
/// `+` may precede. Anything else denotes nothing.
pub open spec fn unsigned_text(s: Seq<char>) -> Option<nat> {
    let body = if s.len() > 0 && s[0] == '+' {
        s.skip(1)
    } else {
        s
    };
    if body.len() > 0 && all_digits(body) {
        Some(decimal_value(body))
    } else {
        None
    }
}

/// A longer run of digits is worth at least as much as any of its prefixes.
pub proof fn lemma_decimal_value_prefix(s: Seq<char>, k: int)
    requires
        0 <= k <= s.len(),
    ensures
        decimal_value(s.subrange(0, k)) <= decimal_value(s),
    decreases s.len() - k,
{
    if k < s.len() {
        lemma_decimal_value_prefix(s, k + 1);
        assert(s.subrange(0, k + 1).drop_last() == s.subrange(0, k));
    } else {
        assert(s.subrange(0, k) == s);
    }
}

/// The value of the digit `c`, if it is one.
pub fn digit(c: char) -> (value: Option<u8>)
    ensures
        value == if is_digit(c) {
            Some(digit_value(c) as u8)
        } else {
            None
        },
{
    let code: u32 = c as u32;
    if code >= 48 && code <= 57 {
        Some((code - 48) as u8)
    } else {
        None
    }
}

/// Reads the characters of `text` from `from` up to `to` as a run of
/// decimal digits. Gives nothing if one of them is no digit or the value is
/// too large for the result type. An empty run has the value zero.
pub fn parse_digits(text: &str, from: usize, to: usize) -> (value: Option<u128>)
    requires
        from <= to <= text@.len(),
    ensures
        value == if all_digits(text@.subrange(from as int, to as int)) && decimal_value(
            text@.subrange(from as int, to as int),
        ) <= u128::MAX {
            Some(decimal_value(text@.subrange(from as int, to as int)) as u128)
        } else {
            None
        },
{
    let ghost body = text@.subrange(from as int, to as int);
    let mut total: u128 = 0;
    let mut i: usize = from;
    assert(body.subrange(0, 0) == Seq::<char>::empty());
    while i < to
        invariant
            from <= i <= to,
            to <= text@.len(),
            body == text@.subrange(from as int, to as int),
            all_digits(body.subrange(0, i - from)),
            total == decimal_value(body.subrange(0, i - from)),
        decreases to - i,
    {
        let ghost seen = body.subrange(0, i - from);
        let ghost more = body.subrange(0, i + 1 - from);
        let c = text.get_char(i);
        assert(body[i - from] == c);
        assert(more.drop_last() == seen);
        assert(more.last() == c);
        let d: u8 = match digit(c) {
            Some(d) => d,
            None => {
                assert(!is_digit(body[i - from]));
                return None;
            },
        };
        assert(all_digits(more)) by {
            assert forall|j: int| 0 <= j < more.len() implies is_digit(#[trigger] more[j]) by {
                if j < seen.len() {
                    assert(seen[j] == more[j]);
                }
            }
        }
        proof {
            lemma_decimal_value_prefix(body, i + 1 - from);
        }
        let next = match total.checked_mul(10) {
            Some(t) => t.checked_add(d as u128),
            None => None,
        };
        match next {
            Some(t) => {
                total = t;
            },
            None => {
                return None;
            },
        }
        i += 1;
    }
    assert(body.subrange(0, to - from) == body);
    Some(total)
}

/// Reads `text` as an unsigned decimal number. Gives nothing if the text
/// denotes no number or one that the result type cannot hold.
pub fn parse_u128(text: &str) -> (value: Option<u128>)
    ensures
        value == match unsigned_text(text@) {
            Some(n) => if n <= u128::MAX {
                Some(n as u128)
            } else {
                None
            },
            None => None,
        },
{
    let n: usize = text.unicode_len();
    let first: usize = if n > 0 && text.get_char(0) == '+' {
        1
    } else {
        0
    };
    if first == n {
        return None;
    }
    assert(text@.skip(0) == text@);
    assert(text@.skip(first as int) == text@.subrange(first as int, n as int));
    parse_digits(text, first, n)
}

/// Whether the characters of `text` from `from` up to `to` are all digits.
fn is_digits(text: &str, from: usize, to: usize) -> (digits: bool)
    requires
        from <= to <= text@.len(),
    ensures
        digits == all_digits(text@.subrange(from as int, to as int)),
{
    let ghost body = text@.subrange(from as int, to as int);
    let mut i: usize = from;
    while i < to
        invariant
            from <= i <= to,
            to <= text@.len(),
            body == text@.subrange(from as int, to as int),
            forall|j: int| 0 <= j < i - from ==> is_digit(#[trigger] body[j]),
        decreases to - i,
    {
        let c = text.get_char(i);
        assert(body[i - from] == c);
        if digit(c).is_none() {
            assert(!is_digit(body[i - from]));
            return false;
        }
        i += 1;
    }
    true
}

/// Value of the digit at position `i` of a run of digits.
fn digit_at(text: &str, from: usize, to: usize, i: usize) -> (value: u128)
    requires
        from <= i < to <= text@.len(),
        all_digits(text@.subrange(from as int, to as int)),
    ensures
        value == digit_value(text@.subrange(from as int, to as int)[i - from]),
        value <= 9,
{
    let c = text.get_char(i);
    assert(text@.subrange(from as int, to as int)[i - from] == c);
    match digit(c) {
        Some(d) => d as u128,
        None => 0,
    }
}

/// Value of the first three digits of a decimal fraction, in thousandths.
pub open spec fn thousandths(fraction: Seq<char>) -> nat {
    (if fraction.len() > 0 {
        digit_value(fraction[0]) * 100
    } else {
        0
    }) + (if fraction.len() > 1 {
        digit_value(fraction[1]) * 10
    } else {
        0
    }) + (if fraction.len() > 2 {
        digit_value(fraction[2])
    } else {
        0
    })
}

/// Index of the first `.` in `s`, or the length of `s` if there is none.
pub open spec fn point_at(s: Seq<char>) -> nat
    decreases s.len(),
{
    if s.len() == 0 {
        0
    } else if s[0] == '.' {
        0
    } else {
        1 + point_at(s.skip(1))
    }
}

/// Where a scan for the decimal point stops is where the point is.
pub proof fn lemma_point_at_is(s: Seq<char>, k: int)
    requires
        0 <= k <= s.len(),
        forall|j: int| 0 <= j < k ==> s[j] != '.',
        k < s.len() ==> s[k] == '.',
    ensures
        point_at(s) == k,
    decreases s.len(),
{
    if s.len() != 0 && k > 0 {
        assert(s[0] != '.');
        assert forall|j: int| 0 <= j < k - 1 implies s.skip(1)[j] != '.' by {
            assert(s.skip(1)[j] == s[j + 1]);
        }
        if k - 1 < s.skip(1).len() {
            assert(s.skip(1)[k - 1] == s[k]);
        }
        lemma_point_at_is(s.skip(1), k - 1);
    }
}

/// A number text without its sign.
pub open spec fn unsigned_part(s: Seq<char>) -> Seq<char> {
    if s.len() > 0 && (s[0] == '-' || s[0] == '+') {
        s.skip(1)
    } else {
        s
    }
}

/// The digits in front of the decimal point.
pub open spec fn whole_part(s: Seq<char>) -> Seq<char> {
    unsigned_part(s).subrange(0, point_at(unsigned_part(s)) as int)
}

/// The digits behind the decimal point.
pub open spec fn fraction_part(s: Seq<char>) -> Seq<char> {
    let body = unsigned_part(s);
    if point_at(body) < body.len() {
        body.subrange(point_at(body) as int + 1, body.len() as int)
    } else {
        Seq::empty()
    }
}

/// The number that `s` denotes, in thousandths: an optional sign, one or
/// more digits, and optionally a point with digits behind it, of which the
/// first three count. Anything else denotes nothing.
pub open spec fn permille_text(s: Seq<char>) -> Option<int> {
    let whole = whole_part(s);
    let fraction = fraction_part(s);
    if whole.len() > 0 && all_digits(whole) && all_digits(fraction) {
        let magnitude = decimal_value(whole) * 1000 + thousandths(fraction);
        Some(
            if s[0] == '-' {
                -magnitude
            } else {
                magnitude as int
            },
        )
    } else {
        None
    }
}

/// Finds the parts of a number text: where the digits start, where the
/// whole part ends and where the fraction starts.
fn locate(text: &str) -> (at: (usize, usize, usize))
    ensures
        at.0 <= at.1 <= at.2 <= text@.len(),
        whole_part(text@) == text@.subrange(at.0 as int, at.1 as int),
        fraction_part(text@) == text@.subrange(at.2 as int, text@.len() as int),
{
    let n: usize = text.unicode_len();
    let first: usize = if n > 0 && (text.get_char(0) == '-' || text.get_char(0) == '+') {
        1
    } else {
        0
    };
    let ghost body = text@.subrange(first as int, n as int);
    proof {
        assert(text@.skip(0) == text@);
        assert(text@.skip(first as int) == body);
        assert(text@.subrange(0, n as int) == text@);
        assert(unsigned_part(text@) == body);
    }
    let mut point: usize = first;
    while point < n && text.get_char(point) != '.'
        invariant
            first <= point <= n,
            n == text@.len(),
            forall|j: int| first <= j < point ==> text@[j] != '.',
        decreases n - point,
    {
        point += 1;
    }
    let start: usize = if point < n {
        point + 1
    } else {
        n
    };
    proof {
        lemma_point_at_is(body, point - first);
        assert(body.subrange(0, point - first) == text@.subrange(first as int, point as int));
        if point < n {
            assert(body.subrange(point - first + 1, body.len() as int) == text@.subrange(
                start as int,
                n as int,
            ));
        } else {
            assert(text@.subrange(start as int, n as int) == Seq::<char>::empty());
        }
    }
    (first, point, start)
}

/// Reads `text` as a decimal number and gives it in thousandths, the rest
/// of the fraction cut off. Gives nothing if the text denotes no number or
/// one whose size is above `i32::MAX` thousandths.
pub fn parse_permille(text: &str) -> (value: Option<i32>)
    ensures
        value == match permille_text(text@) {
            Some(n) => if -i32::MAX <= n <= i32::MAX {
                Some(n as i32)
            } else {
                None
            },
            None => None,
        },
{
    let n: usize = text.unicode_len();
    let (first, point, start) = locate(text);
    if point == first {
        return None;
    }
    let negative: bool = text.get_char(0) == '-';
    let ghost whole_digits = text@.subrange(first as int, point as int);
    let ghost fraction = text@.subrange(start as int, n as int);
    let whole: u128 = match parse_digits(text, first, point) {
        Some(v) => v,
        None => {
            return None;
        },
    };
    if !is_digits(text, start, n) {
        return None;
    }
    let d0: u128 = if n - start > 0 {
        digit_at(text, start, n, start) * 100
    } else {
        0
    };
    let d1: u128 = if n - start > 1 {
        digit_at(text, start, n, start + 1) * 10
    } else {
        0
    };
    let d2: u128 = if n - start > 2 {
        digit_at(text, start, n, start + 2)
    } else {
        0
    };
    let part: u128 = d0 + d1 + d2;
    assert(part == thousandths(fraction));
    if whole > 3_000_000 {
        return None;
    }
    let magnitude: u128 = whole * 1000 + part;
    if magnitude > i32::MAX as u128 {
        return None;
    }
    if negative {
        Some(-(magnitude as i32))
    } else {
        Some(magnitude as i32)
    }
}

/// The text of a decimal digit.
pub open spec fn digit_text(d: int) -> Seq<char> {
    if d == 0 {
        "0"@
    } else if d == 1 {
        "1"@
    } else if d == 2 {
        "2"@
    } else if d == 3 {
        "3"@
    } else if d == 4 {
        "4"@
    } else if d == 5 {
        "5"@
    } else if d == 6 {
        "6"@
    } else if d == 7 {
        "7"@
    } else if d == 8 {
        "8"@
    } else {
        "9"@
    }
}

/// The text of a number below one that is given in thousandths: a zero,
/// the point, and three digits.
pub open spec fn fraction_text(thousandths: int) -> Seq<char> {
    "0."@ + digit_text(thousandths / 100 % 10) + digit_text(thousandths / 10 % 10) + digit_text(
        thousandths % 10,
    )
}

fn digit_str(d: u32) -> (text: &'static str)
    requires
        d < 10,
    ensures
        text@ == digit_text(d as int),
{
    if d == 0 {
        "0"
    } else if d == 1 {
        "1"
    } else if d == 2 {
        "2"
    } else if d == 3 {
        "3"
    } else if d == 4 {
        "4"
    } else if d == 5 {
        "5"
    } else if d == 6 {
        "6"
    } else if d == 7 {
        "7"
    } else if d == 8 {
        "8"
    } else {
        "9"
    }
}

/// Writes the number below one that has `thousandths` thousandths; what
/// goes beyond a whole is dropped.
pub fn write_fraction(thousandths: u32) -> (text: String)
    ensures
        text@ == fraction_text(thousandths as int % 1000),
{
    let v: u32 = thousandths % 1000;
    let mut text = String::from_str("0.");
    text.append(digit_str(v / 100 % 10));
    text.append(digit_str(v / 10 % 10));
    text.append(digit_str(v % 10));
    text
}

} // verus!
