//! Working-diff statistics: the numeric diff listing is summed into insertion
//! and deletion totals, one tab-separated count pair per line, with anything
//! unparsable counting as zero.

use vstd::prelude::*;

use crate::num::sat_add;
use crate::num::saturating_add;
use crate::num::spec_parse_usize;
use crate::num::parse_usize;
use crate::text::lines_of;
use crate::text::chars_view;
use crate::text::spec_lines;
use crate::text::spec_split;
use crate::text::split_char;
use crate::text::to_chars;

verus! {

/// The insertion count a line reports: its first tab-separated field, if it
/// is a number.
pub open spec fn line_insertions(l: Seq<char>) -> int {
    match spec_parse_usize(spec_split(l, '\t')[0]) {
        Some(n) => n as int,
        None => 0,
    }
}

/// The deletion count a line reports: its second tab-separated field, if
/// present and a number.
pub open spec fn line_deletions(l: Seq<char>) -> int {
    let parts = spec_split(l, '\t');
    if parts.len() >= 2 {
        match spec_parse_usize(parts[1]) {
            Some(n) => n as int,
            None => 0,
        }
    } else {
        0
    }
}

/// The running totals over the lines, summed with saturation.
pub open spec fn spec_totals(ls: Seq<Seq<char>>) -> (int, int)
    decreases ls.len(),
{
    if ls.len() == 0 {
        (0, 0)
    } else {
        let rest = spec_totals(ls.drop_last());
        (sat_add(rest.0, line_insertions(ls.last())), sat_add(rest.1, line_deletions(ls.last())))
    }
}

/// Sum a numeric diff listing into insertion and deletion totals.
pub fn diff_stat(stdout: &str) -> (r: (usize, usize))
    ensures
        r.0 as int == spec_totals(spec_lines(stdout@)).0,
        r.1 as int == spec_totals(spec_lines(stdout@)).1,
{
    let chars = to_chars(stdout);
    let ls = lines_of(&chars);
    let ghost lsv = spec_lines(stdout@);
    let n = ls.len();
    let mut insertions: usize = 0;
    let mut deletions: usize = 0;
    let mut i: usize = 0;
    proof {
        assert(lsv.subrange(0, 0) =~= Seq::<Seq<char>>::empty());
    }
    while i < n
        invariant
            n == ls@.len(),
            chars_view(ls@) == lsv,
            i <= n,
            insertions as int == spec_totals(lsv.subrange(0, i as int)).0,
            deletions as int == spec_totals(lsv.subrange(0, i as int)).1,
        decreases n - i,
    {
        proof {
            assert(ls@[i as int]@ == lsv[i as int]);
        }
        let parts = split_char(&ls[i], '\t');
        let added = match parse_usize(&parts[0]) {
            Some(v) => v,
            None => 0,
        };
        proof {
            assert(parts@[0]@ == chars_view(parts@)[0]);
            assert(added as int == line_insertions(lsv[i as int]));
        }
        let removed = if parts.len() >= 2 {
            match parse_usize(&parts[1]) {
                Some(v) => v,
                None => 0,
            }
        } else {
            0
        };
        proof {
            if parts@.len() >= 2 {
                assert(parts@[1]@ == chars_view(parts@)[1]);
            }
            assert(removed as int == line_deletions(lsv[i as int]));
        }
        insertions = saturating_add(insertions, added);
        deletions = saturating_add(deletions, removed);
        i = i + 1;
        proof {
            assert(lsv.subrange(0, i as int).drop_last() =~= lsv.subrange(0, i - 1));
            assert(lsv.subrange(0, i as int).last() == lsv[i - 1]);
        }
    }
    proof {
        assert(lsv.subrange(0, n as int) =~= lsv);
    }
    (insertions, deletions)
}

} // verus!
