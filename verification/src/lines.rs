//! Splitting a raw byte buffer into newline-delimited line records.
//!
//! A line is a maximal span free of the delimiter byte `\n` (10). The
//! delimiter is consumed, never part of a line; a trailing unterminated span
//! is still a line; a buffer that ends in the delimiter yields no extra empty
//! line. Lines are 0-indexed in buffer order.

use vstd::prelude::*;

verus! {

/// The newline delimiter byte.
pub const NEWLINE: u8 = 10;

/// Index of the first newline byte of `s`, or `s.len()` if there is none.
pub open spec fn first_nl(s: Seq<u8>) -> int
    decreases s.len(),
{
    if s.len() == 0 {
        0
    } else if s[0] == NEWLINE {
        0
    } else {
        1 + first_nl(s.drop_first())
    }
}

pub proof fn lemma_first_nl(s: Seq<u8>)
    ensures
        0 <= first_nl(s) <= s.len(),
        forall|j: int| 0 <= j < first_nl(s) ==> s[j] != NEWLINE,
        first_nl(s) < s.len() ==> s[first_nl(s)] == NEWLINE,
    decreases s.len(),
{
    if s.len() == 0 {
    } else if s[0] == NEWLINE {
    } else {
        lemma_first_nl(s.drop_first());
        assert forall|j: int| 0 <= j < first_nl(s) implies s[j] != NEWLINE by {
            if j > 0 {
                assert(s.drop_first()[j - 1] == s[j]);
            }
        }
        if first_nl(s) < s.len() {
            assert(s.drop_first()[first_nl(s) - 1] == s[first_nl(s)]);
        }
    }
}

/// If `k` is the least index of a newline in `s`, then `first_nl(s) == k`.
pub proof fn lemma_first_nl_is(s: Seq<u8>, k: int)
    requires
        0 <= k < s.len(),
        s[k] == NEWLINE,
        forall|j: int| 0 <= j < k ==> s[j] != NEWLINE,
    ensures
        first_nl(s) == k,
{
    lemma_first_nl(s);
    if first_nl(s) < k {
        assert(s[first_nl(s)] != NEWLINE);
    }
    if first_nl(s) > k {
        assert(s[k] != NEWLINE);
    }
}

/// The ordered line records of a byte buffer.
pub open spec fn line_split(s: Seq<u8>) -> Seq<Seq<u8>>
    decreases s.len(),
    via line_split_decreases
{
    if s.len() == 0 {
        Seq::empty()
    } else if first_nl(s) == s.len() {
        seq![s]
    } else {
        seq![s.subrange(0, first_nl(s))] + line_split(
            s.subrange(first_nl(s) + 1, s.len() as int),
        )
    }
}

#[via_fn]
proof fn line_split_decreases(s: Seq<u8>) {
    lemma_first_nl(s);
}

/// Splitting off the first line at the least newline index `k`.
pub proof fn lemma_line_split_step(s: Seq<u8>, k: int)
    requires
        0 <= k < s.len(),
        s[k] == NEWLINE,
        forall|j: int| 0 <= j < k ==> s[j] != NEWLINE,
    ensures
        line_split(s) == seq![s.subrange(0, k)] + line_split(s.subrange(k + 1, s.len() as int)),
{
    lemma_first_nl_is(s, k);
}

/// A non-empty buffer without any newline is a single line.
pub proof fn lemma_line_split_whole(s: Seq<u8>)
    requires
        s.len() > 0,
        forall|j: int| 0 <= j < s.len() ==> s[j] != NEWLINE,
    ensures
        line_split(s) == seq![s],
{
    lemma_first_nl(s);
    if first_nl(s) < s.len() {
        assert(s[first_nl(s)] != NEWLINE);
    }
}

/// The byte views of a sequence of owned lines.
pub open spec fn views_of(vs: Seq<Vec<u8>>) -> Seq<Seq<u8>> {
    Seq::new(vs.len(), |i: int| vs[i]@)
}

/// Split a buffer into its line records, in buffer order.
pub fn split_lines(buf: &[u8]) -> (lines: Vec<Vec<u8>>)
    ensures
        views_of(lines@) == line_split(buf@),
{
    let mut lines: Vec<Vec<u8>> = Vec::new();
    let mut cur: Vec<u8> = Vec::new();
    let mut i: usize = 0;
    proof {
        assert(buf@.subrange(0, buf@.len() as int) =~= buf@);
    }
    while i < buf.len()
        invariant
            i <= buf@.len(),
            cur@.len() <= i,
            cur@ =~= buf@.subrange(i - cur@.len(), i as int),
            forall|j: int| 0 <= j < cur@.len() ==> cur@[j] != NEWLINE,
            line_split(buf@) == views_of(lines@) + line_split(
                buf@.subrange(i - cur@.len(), buf@.len() as int),
            ),
        decreases buf@.len() - i,
    {
        let ghost start = i - cur@.len();
        let ghost rest = buf@.subrange(start, buf@.len() as int);
        let b = buf[i];
        if b == NEWLINE {
            proof {
                assert(rest[i - start] == NEWLINE);
                assert forall|j: int| 0 <= j < i - start implies rest[j] != NEWLINE by {
                    assert(rest[j] == cur@[j]);
                }
                lemma_line_split_step(rest, i - start);
                assert(rest.subrange(0, i - start) =~= cur@);
                assert(rest.subrange(i - start + 1, rest.len() as int) =~= buf@.subrange(
                    i + 1,
                    buf@.len() as int,
                ));
            }
            let ghost old_lines = lines@;
            lines.push(cur);
            proof {
                assert(views_of(lines@) =~= views_of(old_lines) + seq![cur@]);
                assert(views_of(old_lines) + (seq![cur@] + line_split(
                    buf@.subrange(i + 1, buf@.len() as int),
                )) =~= (views_of(old_lines) + seq![cur@]) + line_split(
                    buf@.subrange(i + 1, buf@.len() as int),
                ));
            }
            cur = Vec::new();
        } else {
            let ghost old_cur = cur@;
            cur.push(b);
            proof {
                assert(cur@ =~= buf@.subrange(start, i + 1));
            }
        }
        i += 1;
    }
    let ghost start = i - cur@.len();
    let ghost rest = buf@.subrange(start, buf@.len() as int);
    if cur.len() > 0 {
        proof {
            assert forall|j: int| 0 <= j < rest.len() implies rest[j] != NEWLINE by {
                assert(rest[j] == cur@[j]);
            }
            lemma_line_split_whole(rest);
        }
        let ghost old_lines = lines@;
        lines.push(cur);
        proof {
            assert(views_of(lines@) =~= views_of(old_lines) + seq![rest]);
        }
    } else {
        proof {
            assert(rest =~= Seq::<u8>::empty());
            assert(views_of(lines@) + line_split(rest) =~= views_of(lines@));
        }
    }
    lines
}

} // verus!
