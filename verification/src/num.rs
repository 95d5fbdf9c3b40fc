//! Decimal formatting and parsing: page counters for trash-path names and the
//! insertion/deletion totals of the working-diff statistics.

use vstd::prelude::*;

verus! {

use vstd::arithmetic::div_mod::lemma_div_decreases;
use vstd::arithmetic::div_mod::lemma_div_pos_is_pos;

/// The character for one decimal digit.
pub open spec fn digit_char(d: int) -> char {
    if d == 0 {
        '0'
    } else if d == 1 {
        '1'
    } else if d == 2 {
        '2'
    } else if d == 3 {
        '3'
    } else if d == 4 {
        '4'
    } else if d == 5 {
        '5'
    } else if d == 6 {
        '6'
    } else if d == 7 {
        '7'
    } else if d == 8 {
        '8'
    } else {
        '9'
    }
}

/// The decimal notation of a nonnegative number, most significant digit first.
pub open spec fn spec_dec(n: int) -> Seq<char>
    decreases n via spec_dec_decreases
{
    if n < 10 {
        seq![digit_char(n)]
    } else {
        spec_dec(n / 10).push(digit_char(n % 10))
    }
}

#[via_fn]
proof fn spec_dec_decreases(n: int) {
    if n >= 10 {
        lemma_div_decreases(n, 10);
        lemma_div_pos_is_pos(n, 10);
    }
}

fn digit_of(d: usize) -> (c: char)
    requires
        d < 10,
    ensures
        c == digit_char(d as int),
{
    match d {
        0 => '0',
        1 => '1',
        2 => '2',
        3 => '3',
        4 => '4',
        5 => '5',
        6 => '6',
        7 => '7',
        8 => '8',
        _ => '9',
    }
}

/// Write `n` in decimal.
pub fn dec_of(n: usize) -> (r: Vec<char>)
    ensures
        r@ == spec_dec(n as int),
    decreases n,
{
    if n < 10 {
        let mut r: Vec<char> = Vec::new();
        r.push(digit_of(n));
        proof {
            assert(r@ =~= spec_dec(n as int));
        }
        r
    } else {
        proof {
            lemma_div_decreases(n as int, 10);
            lemma_div_pos_is_pos(n as int, 10);
        }
        let mut r = dec_of(n / 10);
        r.push(digit_of(n % 10));
        r
    }
}

/// Whether `c` is a decimal digit.
pub open spec fn is_digit(c: char) -> bool {
    48 <= c as u32 && c as u32 <= 57
}

pub open spec fn all_digits(s: Seq<char>) -> bool {
    forall|i: int| 0 <= i < s.len() ==> is_digit(s[i])
}

/// The number denoted by a digit sequence, read most significant digit first.
pub open spec fn dec_val(s: Seq<char>) -> int
    decreases s.len(),
{
    if s.len() == 0 {
        0
    } else {
        10 * dec_val(s.drop_last()) + (s.last() as u32 - 48)
    }
}

pub proof fn lemma_dec_val_nonneg(s: Seq<char>)
    requires
        all_digits(s),
    ensures
        dec_val(s) >= 0,
    decreases s.len(),
{
    if s.len() > 0 {
        assert(forall|i: int| 0 <= i < s.len() - 1 ==> s.drop_last()[i] == s[i]);
        lemma_dec_val_nonneg(s.drop_last());
    }
}

/// The number a digit string denotes, if it is one and the value fits.
pub open spec fn spec_parse_usize(s: Seq<char>) -> Option<usize> {
    if s.len() > 0 && all_digits(s) && dec_val(s) <= usize::MAX as int {
        Some(dec_val(s) as usize)
    } else {
        None
    }
}

/// Parse a decimal number, rejecting empty or non-digit input and overflow.
pub fn parse_usize(v: &Vec<char>) -> (r: Option<usize>)
    ensures
        r == spec_parse_usize(v@),
{
    let len = v.len();
    if len == 0 {
        return None;
    }
    let mut acc: usize = 0;
    let mut over: bool = false;
    let mut i: usize = 0;
    while i < len
        invariant
            len == v@.len(),
            i <= len,
            forall|j: int| 0 <= j < i ==> is_digit(v@[j]),
            !over ==> acc as int == dec_val(v@.subrange(0, i as int)),
            over ==> dec_val(v@.subrange(0, i as int)) > usize::MAX as int,
        decreases len - i,
    {
        let c = v[i];
        let x = c as u32;
        if x < 48 || x > 57 {
            proof {
                assert(!is_digit(v@[i as int]));
            }
            return None;
        }
        let d = (x - 48) as usize;
        proof {
            assert(d as int == c as u32 - 48);
        }
        let ghost pre = v@.subrange(0, i as int);
        let ghost cur = v@.subrange(0, i + 1 as int);
        proof {
            assert(cur.drop_last() =~= pre);
            assert(cur.last() == v@[i as int]);
            assert(dec_val(cur) == 10 * dec_val(pre) + (d as int));
            assert(forall|j: int| 0 <= j < pre.len() ==> pre[j] == v@[j]);
            lemma_dec_val_nonneg(pre);
        }
        if over {
            proof {
                assert(dec_val(cur) > usize::MAX as int);
            }
        } else if acc <= (usize::MAX - d) / 10 {
            proof {
                assert(10 * (acc as int) + d as int <= usize::MAX as int) by (nonlinear_arith)
                    requires
                        acc as int <= (usize::MAX as int - d as int) / 10,
                        0 <= d as int <= usize::MAX as int,
                        acc as int >= 0,
                ;
            }
            acc = acc * 10 + d;
        } else {
            proof {
                assert(10 * (acc as int) + d as int > usize::MAX as int) by (nonlinear_arith)
                    requires
                        acc as int > (usize::MAX as int - d as int) / 10,
                        0 <= d as int <= usize::MAX as int,
                        acc as int >= 0,
                ;
            }
            over = true;
        }
        i = i + 1;
    }
    proof {
        assert(v@.subrange(0, len as int) =~= v@);
    }
    if over {
        proof {
            assert(spec_parse_usize(v@) is None);
        }
        None
    } else {
        Some(acc)
    }
}

/// Addition capped at the largest representable value.
pub open spec fn sat_add(a: int, b: int) -> int {
    if a + b > usize::MAX as int {
        usize::MAX as int
    } else {
        a + b
    }
}

pub fn saturating_add(a: usize, b: usize) -> (r: usize)
    ensures
        r as int == sat_add(a as int, b as int),
{
    if a > usize::MAX - b {
        usize::MAX
    } else {
        a + b
    }
}

} // verus!
