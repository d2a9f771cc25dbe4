use vstd::prelude::*;

use crate::text::{all_digits, digits_value, is_digit, lemma_digits_value_grows};

verus! {

/// The fields of `s` between occurrences of `sep`; an empty text has one empty field.
pub open spec fn spec_split(s: Seq<char>, sep: char) -> Seq<Seq<char>>
    decreases s.len(),
{
    if s.len() == 0 {
        seq![Seq::empty()]
    } else {
        let p = spec_split(s.drop_last(), sep);
        if s.last() == sep {
            p.push(Seq::empty())
        } else {
            p.update(p.len() - 1, p.last().push(s.last()))
        }
    }
}

pub proof fn lemma_split_nonempty(s: Seq<char>, sep: char)
    ensures
        spec_split(s, sep).len() >= 1,
    decreases s.len(),
{
    if s.len() > 0 {
        lemma_split_nonempty(s.drop_last(), sep);
    }
}

/// The fields of `s` separated by `sep`.
pub fn split_fields(s: &str, sep: char) -> (r: Vec<Vec<char>>)
    ensures
        r.deep_view() == spec_split(s@, sep),
{
    let n = s.unicode_len();
    let mut parts: Vec<Vec<char>> = Vec::new();
    let mut cur: Vec<char> = Vec::new();
    let mut i: usize = 0;
    assert(s@.subrange(0, 0) =~= Seq::<char>::empty());
    assert(parts.deep_view().push(cur@) =~= spec_split(s@.subrange(0, 0), sep));
    while i < n
        invariant
            n == s@.len(),
            i <= n,
            parts.deep_view().push(cur@) == spec_split(s@.subrange(0, i as int), sep),
        decreases n - i,
    {
        let c = s.get_char(i);
        let ghost pre = s@.subrange(0, i as int);
        proof {
            assert(s@.subrange(0, i + 1).drop_last() =~= pre);
            assert(s@.subrange(0, i + 1).last() == c);
            lemma_split_nonempty(pre, sep);
        }
        let ghost before = parts.deep_view();
        if c == sep {
            let done = cur;
            parts.push(done);
            cur = Vec::new();
            assert(done.deep_view() =~= done@);
            assert(parts.deep_view() =~= before.push(done@));
            assert(parts.deep_view().push(cur@) =~= before.push(done@).push(Seq::empty()));
        } else {
            let ghost old_cur = cur@;
            cur.push(c);
            assert(parts.deep_view().push(cur@) =~= before.push(old_cur).update(
                before.len() as int,
                old_cur.push(c),
            ));
        }
        i += 1;
    }
    assert(s@.subrange(0, n as int) =~= s@);
    let ghost before = parts.deep_view();
    let last = cur;
    parts.push(last);
    assert(last.deep_view() =~= last@);
    assert(parts.deep_view() =~= before.push(last@));
    parts
}

/// The value of a decimal integer with an optional sign, when it fits in an `i64`.
pub open spec fn spec_parse_i64(s: Seq<char>) -> Option<i64> {
    let signed = s.len() > 0 && (s[0] == '+' || s[0] == '-');
    let d = if signed {
        s.drop_first()
    } else {
        s
    };
    let v = if signed && s[0] == '-' {
        -digits_value(d)
    } else {
        digits_value(d)
    };
    if d.len() > 0 && all_digits(d) && i64::MIN <= v <= i64::MAX {
        Some(v as i64)
    } else {
        None
    }
}

/// Parses a decimal integer as `i64::from_str` does.
pub fn parse_i64(s: &Vec<char>) -> (r: Option<i64>)
    ensures
        r == spec_parse_i64(s@),
{
    let n = s.len();
    let signed = n > 0 && (s[0] == '+' || s[0] == '-');
    let negative = n > 0 && s[0] == '-';
    let start: usize = if signed {
        1
    } else {
        0
    };
    let ghost d = if signed {
        s@.drop_first()
    } else {
        s@
    };
    assert(d =~= s@.subrange(start as int, n as int));
    if start == n {
        return None;
    }
    let limit: u64 = 9223372036854775808;
    let mut acc: u64 = 0;
    let mut i: usize = start;
    while i < n
        invariant
            start <= i <= n,
            n == s@.len(),
            d == s@.subrange(start as int, n as int),
            d == (if s@.len() > 0 && (s@[0] == '+' || s@[0] == '-') {
                s@.drop_first()
            } else {
                s@
            }),
            all_digits(d.subrange(0, i - start)),
            acc as int == digits_value(d.subrange(0, i - start)),
            acc <= limit,
            limit == 9223372036854775808u64,
        decreases n - i,
    {
        let c = s[i];
        if !('0' <= c && c <= '9') {
            assert(d[i - start] == c);
            assert(!is_digit(d[i - start]));
            return None;
        }
        let digit = (c as u32) - ('0' as u32);
        let ghost p = d.subrange(0, i - start + 1);
        assert(p.drop_last() =~= d.subrange(0, i - start));
        assert(p.last() == c);
        assert(all_digits(p));
        if acc > (limit - digit as u64) / 10 {
            proof {
                let a = acc as int;
                let g = digit as int;
                let m = limit as int;
                assert(a * 10 + g > m) by (nonlinear_arith)
                    requires
                        a > (m - g) / 10,
                        0 <= g <= 9,
                        m > 9,
                ;
                assert(digits_value(p) == a * 10 + g);
                if all_digits(d) {
                    lemma_digits_value_grows(d, i - start + 1);
                }
            }
            return None;
        }
        acc = acc * 10 + digit as u64;
        i += 1;
    }
    assert(d.subrange(0, i - start) =~= d);
    if negative {
        if acc == limit {
            Some(i64::MIN)
        } else {
            Some(-(acc as i64))
        }
    } else if acc == limit {
        None
    } else {
        Some(acc as i64)
    }
}

pub open spec fn abs_int(x: int) -> int {
    if x < 0 {
        -x
    } else {
        x
    }
}

/// Two CSV fields agree: they are the same text, or both are integers that are
/// equal, or differ by at most 1 where the expected one exceeds a billion in size.
pub open spec fn fields_match(c: Seq<char>, e: Seq<char>) -> bool {
    c == e || match (spec_parse_i64(c), spec_parse_i64(e)) {
        (Some(x), Some(y)) => {
            let diff = abs_int(x - y);
            diff == 0 || (abs_int(y as int) > 1_000_000_000 && diff <= 1)
        },
        _ => false,
    }
}

/// Two CSV lines agree field by field, up to rounding of large integers.
pub open spec fn spec_lines_match(calc: Seq<char>, expected: Seq<char>) -> bool {
    let a = spec_split(calc, ',');
    let b = spec_split(expected, ',');
    a.len() == b.len() && forall|i: int| 0 <= i < a.len() ==> fields_match(a[i], b[i])
}

/// Whether two fields hold the same characters.
fn same_chars(a: &Vec<char>, b: &Vec<char>) -> (r: bool)
    ensures
        r == (a@ == b@),
{
    if a.len() != b.len() {
        return false;
    }
    let mut i: usize = 0;
    while i < a.len()
        invariant
            a@.len() == b@.len(),
            i <= a@.len(),
            forall|k: int| 0 <= k < i ==> a@[k] == b@[k],
        decreases a@.len() - i,
    {
        if a[i] != b[i] {
            return false;
        }
        i += 1;
    }
    assert(a@ =~= b@);
    true
}

/// Whether a calculated CSV line matches an expected one, allowing a
/// difference of 1 in integers larger than a billion.
pub fn lines_match_with_tolerance(calc: &str, expected: &str) -> (r: bool)
    ensures
        r == spec_lines_match(calc@, expected@),
{
    let calc_parts = split_fields(calc, ',');
    let expected_parts = split_fields(expected, ',');
    let ghost a = calc_parts.deep_view();
    let ghost b = expected_parts.deep_view();
    if calc_parts.len() != expected_parts.len() {
        return false;
    }
    let mut i: usize = 0;
    while i < calc_parts.len()
        invariant
            a == calc_parts.deep_view(),
            b == expected_parts.deep_view(),
            a == spec_split(calc@, ','),
            b == spec_split(expected@, ','),
            calc_parts@.len() == expected_parts@.len(),
            i <= calc_parts@.len(),
            forall|k: int| 0 <= k < i ==> fields_match(a[k], b[k]),
        decreases calc_parts@.len() - i,
    {
        let c = &calc_parts[i];
        let e = &expected_parts[i];
        assert(a[i as int] == c@);
        assert(b[i as int] == e@);
        if !same_chars(c, e) {
            match (parse_i64(c), parse_i64(e)) {
                (Some(x), Some(y)) => {
                    let diff: i128 = if (x as i128) >= (y as i128) {
                        (x as i128) - (y as i128)
                    } else {
                        (y as i128) - (x as i128)
                    };
                    let size: i128 = if y < 0 {
                        -(y as i128)
                    } else {
                        y as i128
                    };
                    if !(diff == 0 || (size > 1_000_000_000 && diff <= 1)) {
                        return false;
                    }
                },
                _ => {
                    return false;
                },
            }
        }
        i += 1;
    }
    true
}

} // verus!
