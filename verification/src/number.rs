//! Base-ten unsigned integer literals: what they denote, and a verified
//! parser for 64-bit values.

use vstd::prelude::*;

verus! {

/// Whether `c` is a decimal digit.
pub open spec fn is_digit(c: char) -> bool {
    48 <= c as int <= 57
}

/// The value of one decimal digit.
pub open spec fn digit_value(c: char) -> int {
    c as int - 48
}

/// Whether every character of `s` is a decimal digit.
pub open spec fn all_digits(s: Seq<char>) -> bool {
    forall|i: int| 0 <= i < s.len() ==> is_digit(#[trigger] s[i])
}

/// The number a digit sequence denotes in base ten.
pub open spec fn digits_value(s: Seq<char>) -> int
    decreases s.len(),
{
    if s.len() == 0 {
        0
    } else {
        digits_value(s.drop_last()) * 10 + digit_value(s.last())
    }
}

/// The digits of an unsigned number literal: an optional leading `'+'` is
/// not one of them.
pub open spec fn number_digits(line: Seq<char>) -> Seq<char> {
    if line.len() > 0 && line[0] == '+' {
        line.skip(1)
    } else {
        line
    }
}

/// Whether `line` is an unsigned 64-bit base-ten literal: an optional
/// leading `'+'`, then at least one digit, denoting a value that fits.
pub open spec fn is_u64_literal(line: Seq<char>) -> bool {
    let d = number_digits(line);
    d.len() > 0 && all_digits(d) && digits_value(d) <= u64::MAX
}

/// The value an unsigned 64-bit literal denotes.
pub open spec fn u64_literal_value(line: Seq<char>) -> int {
    digits_value(number_digits(line))
}

/// A digit sequence denotes no negative number.
pub proof fn lemma_digits_value_nonneg(s: Seq<char>)
    requires
        all_digits(s),
    ensures
        digits_value(s) >= 0,
    decreases s.len(),
{
    if s.len() > 0 {
        assert(all_digits(s.drop_last()));
        lemma_digits_value_nonneg(s.drop_last());
    }
}

/// Appending one digit multiplies the denoted number by ten and adds the
/// digit.
pub proof fn lemma_digits_value_push(s: Seq<char>, c: char)
    ensures
        digits_value(s.push(c)) == digits_value(s) * 10 + digit_value(c),
{
    assert(s.push(c).drop_last() =~= s);
    assert(s.push(c).last() == c);
}

/// A digit sequence denotes at least as much as any of its prefixes.
pub proof fn lemma_digits_value_prefix(s: Seq<char>, k: int)
    requires
        all_digits(s),
        0 <= k <= s.len(),
    ensures
        digits_value(s.subrange(0, k)) <= digits_value(s),
    decreases s.len(),
{
    if k == s.len() {
        assert(s.subrange(0, k) =~= s);
    } else {
        let t = s.drop_last();
        assert(all_digits(t));
        lemma_digits_value_prefix(t, k);
        assert(s.subrange(0, k) =~= t.subrange(0, k));
        lemma_digits_value_nonneg(t);
    }
}

/// A stock parse stage for unsigned numbers, over the raw line.
pub struct U64Parser;

impl crate::convert::ParseFn<String> for U64Parser {
    type Out = u64;

    type Err = ();

    open spec fn spec_parse(&self, t: Seq<char>) -> Option<u64> {
        if is_u64_literal(t) {
            Some(u64_literal_value(t) as u64)
        } else {
            None
        }
    }

    fn do_parse(&self, t: String) -> (r: Result<u64, ()>) {
        match parse_u64(t.as_str()) {
            Some(v) => Ok(v),
            None => Err(()),
        }
    }
}

/// Parses an unsigned 64-bit base-ten literal: an optional leading `'+'`,
/// then one or more digits; anything else is rejected, as is a value that
/// does not fit.
pub fn parse_u64(line: &str) -> (r: Option<u64>)
    ensures
        r is Some <==> is_u64_literal(line@),
        r matches Some(v) ==> v == u64_literal_value(line@),
{
    let n = line.unicode_len();
    let start: usize = if n > 0 && line.get_char(0) == '+' {
        1
    } else {
        0
    };
    let ghost d = number_digits(line@);
    proof {
        assert(d =~= line@.subrange(start as int, n as int));
    }
    if start >= n {
        return None;
    }
    let mut acc: u64 = 0;
    let mut i: usize = start;
    while i < n
        invariant
            n == line@.len(),
            start <= i <= n,
            start < n,
            d == number_digits(line@),
            d =~= line@.subrange(start as int, n as int),
            all_digits(line@.subrange(start as int, i as int)),
            acc == digits_value(line@.subrange(start as int, i as int)),
        decreases n - i,
    {
        let c = line.get_char(i);
        let cu: u32 = c as u32;
        if cu < 48 || cu > 57 {
            proof {
                assert(d[i - start] == line@[i as int]);
                assert(!is_digit(line@[i as int]));
            }
            return None;
        }
        let dv: u64 = (cu - 48) as u64;
        let ghost pre = line@.subrange(start as int, i as int);
        let ghost ext = line@.subrange(start as int, i + 1);
        proof {
            assert(ext =~= pre.push(line@[i as int]));
            lemma_digits_value_push(pre, line@[i as int]);
        }
        let next = match acc.checked_mul(10) {
            Some(m) => m.checked_add(dv),
            None => None,
        };
        match next {
            Some(s) => {
                acc = s;
            },
            None => {
                proof {
                    assert(digits_value(ext) > u64::MAX);
                    assert(!is_u64_literal(line@)) by {
                        if is_u64_literal(line@) {
                            lemma_digits_value_prefix(d, i + 1 - start);
                            assert(d.subrange(0, i + 1 - start) =~= ext);
                        }
                    }
                }
                return None;
            },
        }
        i += 1;
    }
    proof {
        assert(line@.subrange(start as int, n as int) =~= d);
    }
    Some(acc)
}

} // verus!

