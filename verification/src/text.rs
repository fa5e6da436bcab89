//! Splitting body text into lines.
//!
//! A line ends at a `\n` or at a `\r\n`; the final line ending is optional,
//! so an empty text has no lines and a text that ends with a line ending has
//! no trailing empty line.

use vstd::prelude::*;

verus! {

/// The index of the first `\n` in `s`, or `s.len()` when there is none.
pub open spec fn first_newline(s: Seq<char>) -> nat
    decreases s.len(),
{
    if s.len() == 0 {
        0
    } else if s[0] == '\n' {
        0
    } else {
        1 + first_newline(s.drop_first())
    }
}

/// `first_newline` points at the first `\n`, and never past the end.
pub proof fn lemma_first_newline_bound(s: Seq<char>)
    ensures
        first_newline(s) <= s.len(),
        first_newline(s) < s.len() ==> s[first_newline(s) as int] == '\n',
        forall|k: int| 0 <= k < first_newline(s) ==> s[k] != '\n',
    decreases s.len(),
{
    if s.len() == 0 {
    } else if s[0] == '\n' {
    } else {
        lemma_first_newline_bound(s.drop_first());
        assert forall|k: int| 0 <= k < first_newline(s) implies s[k] != '\n' by {
            if k > 0 {
                assert(s.drop_first()[k - 1] == s[k]);
            }
        }
    }
}

/// The index that sees no `\n` before it and a `\n` (or the end) at it is
/// `first_newline`.
pub proof fn lemma_first_newline_is(s: Seq<char>, j: int)
    requires
        0 <= j <= s.len(),
        forall|k: int| 0 <= k < j ==> s[k] != '\n',
        j < s.len() ==> s[j] == '\n',
    ensures
        first_newline(s) == j,
    decreases s.len(),
{
    if s.len() == 0 {
    } else if s[0] == '\n' {
        assert(j == 0);
    } else {
        assert(j >= 1);
        let t = s.drop_first();
        assert forall|k: int| 0 <= k < j - 1 implies t[k] != '\n' by {
            assert(t[k] == s[k + 1]);
        }
        lemma_first_newline_is(t, j - 1);
    }
}

/// A line with its terminator removed: one trailing `\r` is dropped, the way
/// a `\r\n` line ending is handled.
pub open spec fn chomp(line: Seq<char>) -> Seq<char> {
    if line.len() > 0 && line.last() == '\r' {
        line.drop_last()
    } else {
        line
    }
}

/// The lines of `s`: split at each `\n`, with a `\r` just before the `\n`
/// dropped, and with no trailing empty line when `s` ends with a `\n`.
pub open spec fn spec_lines(s: Seq<char>) -> Seq<Seq<char>>
    decreases s.len(),
    via spec_lines_decreases
{
    if s.len() == 0 {
        Seq::empty()
    } else {
        let j = first_newline(s) as int;
        if j == s.len() {
            seq![s]
        } else {
            seq![chomp(s.take(j))] + spec_lines(s.skip(j + 1))
        }
    }
}

#[via_fn]
proof fn spec_lines_decreases(s: Seq<char>) {
    lemma_first_newline_bound(s);
}

/// Splits `s` into its lines, each line as an owned string.
pub fn split_lines(s: &str) -> (r: Vec<String>)
    ensures
        r.deep_view() == spec_lines(s@),
    decreases s@.len(),
{
    let n = s.unicode_len();
    if n == 0 {
        let r: Vec<String> = Vec::new();
        assert(r.deep_view() =~= spec_lines(s@));
        return r;
    }
    let mut j: usize = 0;
    while j < n && s.get_char(j) != '\n'
        invariant
            j <= n,
            n == s@.len(),
            forall|k: int| 0 <= k < j ==> s@[k] != '\n',
        decreases n - j,
    {
        j += 1;
    }
    proof {
        lemma_first_newline_is(s@, j as int);
    }
    if j == n {
        let mut r: Vec<String> = Vec::new();
        r.push(s.to_owned());
        assert(r.deep_view() =~= spec_lines(s@));
        r
    } else {
        let head_end = if j > 0 && s.get_char(j - 1) == '\r' {
            j - 1
        } else {
            j
        };
        let head = s.substring_char(0, head_end);
        let rest = s.substring_char(j + 1, n);
        let tail = split_lines(rest);
        let mut r: Vec<String> = Vec::new();
        r.push(head.to_owned());
        let ghost first_line = r.deep_view();
        let mut tail = tail;
        r.append(&mut tail);
        proof {
            assert(head@ =~= chomp(s@.take(j as int)));
            assert(rest@ =~= s@.skip(j as int + 1));
            assert(r.deep_view() =~= first_line + spec_lines(rest@));
            assert(first_line =~= seq![chomp(s@.take(j as int))]);
        }
        r
    }
}

} // verus!
