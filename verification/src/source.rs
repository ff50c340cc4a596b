//! Query-file loading, the verified half: splitting a query file's text on
//! the `;` statement separator and discarding blank fragments, yielding the
//! ordered statement batch that one query executes.

use vstd::prelude::*;

use crate::text::all_space;

verus! {

/// Index of the first `;` in `s`, or `s.len()` when there is none.
pub open spec fn first_semi(s: Seq<char>) -> nat
    decreases s.len(),
{
    if s.len() == 0 {
        0
    } else if s[0] == ';' {
        0
    } else {
        1 + first_semi(s.drop_first())
    }
}

/// `first_semi` points at a `;` (or at the end), and nothing before it is
/// a `;`.
pub proof fn lemma_first_semi(s: Seq<char>)
    ensures
        first_semi(s) <= s.len(),
        first_semi(s) < s.len() ==> s[first_semi(s) as int] == ';',
        forall|k: int| 0 <= k < first_semi(s) ==> s[k] != ';',
    decreases s.len(),
{
    if s.len() > 0 && s[0] != ';' {
        lemma_first_semi(s.drop_first());
        assert forall|k: int| 0 <= k < first_semi(s) implies s[k] != ';' by {
            if k > 0 {
                assert(s.drop_first()[k - 1] == s[k]);
            }
        }
    }
}

/// Conversely, the least index holding a `;` (or the length, when no index
/// does) is what `first_semi` returns.
pub proof fn lemma_first_semi_at(s: Seq<char>, j: int)
    requires
        0 <= j <= s.len(),
        forall|k: int| 0 <= k < j ==> s[k] != ';',
        j < s.len() ==> s[j] == ';',
    ensures
        first_semi(s) == j,
    decreases s.len(),
{
    if s.len() > 0 && s[0] != ';' {
        let t = s.drop_first();
        assert forall|k: int| 0 <= k < j - 1 implies t[k] != ';' by {
            assert(t[k] == s[k + 1]);
        }
        lemma_first_semi_at(t, j - 1);
    }
}

/// The raw split of `s` on `;`: the fragments between separators, in order,
/// blank ones included. A text without a `;` is one fragment (possibly
/// empty).
pub open spec fn split_semi(s: Seq<char>) -> Seq<Seq<char>>
    decreases s.len(),
{
    let i = first_semi(s);
    if i >= s.len() {
        seq![s]
    } else {
        seq![s.subrange(0, i as int)] + split_semi(s.subrange(i as int + 1, s.len() as int))
    }
}

/// The fragments of `fs` that are not blank, in order.
pub open spec fn keep_nonblank(fs: Seq<Seq<char>>) -> Seq<Seq<char>>
    decreases fs.len(),
{
    if fs.len() == 0 {
        seq![]
    } else if all_space(fs[0]) {
        keep_nonblank(fs.drop_first())
    } else {
        seq![fs[0]] + keep_nonblank(fs.drop_first())
    }
}

/// The statement batch of a query file's text: split on `;`, blank
/// fragments discarded, order kept, fragments otherwise untouched.
pub open spec fn statements_of(s: Seq<char>) -> Seq<Seq<char>> {
    keep_nonblank(split_semi(s))
}

/// The views of a vector of character vectors.
pub open spec fn views_of(vs: Seq<Vec<char>>) -> Seq<Seq<char>> {
    vs.map_values(|v: Vec<char>| v@)
}

proof fn lemma_keep_nonblank_cons(f: Seq<char>, rest: Seq<Seq<char>>)
    ensures
        all_space(f) ==> keep_nonblank(seq![f] + rest) == keep_nonblank(rest),
        !all_space(f) ==> keep_nonblank(seq![f] + rest) == seq![f] + keep_nonblank(rest),
{
    let whole = seq![f] + rest;
    assert(whole.len() > 0);
    assert(whole[0] == f);
    assert(whole.drop_first() =~= rest);
}

/// Copies `text[from..to]` into a fresh vector.
fn copy_range(text: &Vec<char>, from: usize, to: usize) -> (r: Vec<char>)
    requires
        from <= to <= text@.len(),
    ensures
        r@ == text@.subrange(from as int, to as int),
{
    let mut r: Vec<char> = Vec::new();
    let mut i: usize = from;
    while i < to
        invariant
            from <= i <= to <= text@.len(),
            r@ =~= text@.subrange(from as int, i as int),
        decreases to - i,
    {
        r.push(text[i]);
        i += 1;
        proof {
            assert(r@ =~= text@.subrange(from as int, i as int));
        }
    }
    r
}

/// Splits a query file's text on `;` and keeps the non-blank fragments:
/// the resulting batch is exactly `statements_of(text@)`.
pub fn split_statements(text: &Vec<char>) -> (r: Vec<Vec<char>>)
    ensures
        views_of(r@) == statements_of(text@),
{
    let n: usize = text.len();
    let mut result: Vec<Vec<char>> = Vec::new();
    let mut frag_start: usize = 0;
    proof {
        assert(text@.subrange(0, n as int) =~= text@);
        assert(views_of(result@) =~= Seq::<Seq<char>>::empty());
    }
    loop
        invariant_except_break
            frag_start <= n == text@.len(),
            statements_of(text@) =~= views_of(result@) + keep_nonblank(
                split_semi(text@.subrange(frag_start as int, n as int)),
            ),
        ensures
            views_of(result@) == statements_of(text@),
        decreases n - frag_start,
    {
        let ghost rest = text@.subrange(frag_start as int, n as int);
        let mut j: usize = frag_start;
        while j < n && text[j] != ';'
            invariant
                frag_start <= j <= n == text@.len(),
                forall|k: int| frag_start <= k < j ==> text@[k] != ';',
            decreases n - j,
        {
            j += 1;
        }
        proof {
            assert forall|k: int| 0 <= k < j - frag_start implies rest[k] != ';' by {
                assert(rest[k] == text@[frag_start + k]);
            }
            if j < n {
                assert(rest[j - frag_start] == text@[j as int]);
            }
            lemma_first_semi_at(rest, j - frag_start);
        }
        let ghost frag = text@.subrange(frag_start as int, j as int);
        proof {
            assert(frag =~= rest.subrange(0, j - frag_start));
        }
        let blank = crate::text::range_all_space(text, frag_start, j);
        if !blank {
            let piece = copy_range(text, frag_start, j);
            result.push(piece);
            proof {
                assert(views_of(result@) =~= views_of(result@.drop_last()) + seq![frag]);
            }
        }
        if j == n {
            proof {
                assert(first_semi(rest) == rest.len());
                assert(frag =~= rest);
                assert(split_semi(rest) =~= seq![frag]);
                assert(seq![frag].drop_first() =~= Seq::<Seq<char>>::empty());
                lemma_keep_nonblank_cons(frag, Seq::<Seq<char>>::empty());
                assert(seq![frag] + Seq::<Seq<char>>::empty() =~= seq![frag]);
                assert(keep_nonblank(Seq::<Seq<char>>::empty()) =~= Seq::<Seq<char>>::empty());
                if all_space(frag) {
                    assert(keep_nonblank(split_semi(rest)) =~= Seq::<Seq<char>>::empty());
                } else {
                    assert(keep_nonblank(split_semi(rest)) =~= seq![frag] + keep_nonblank(
                        Seq::<Seq<char>>::empty(),
                    ));
                    assert(keep_nonblank(split_semi(rest)) =~= seq![frag]);
                }
            }
            break;
        }
        proof {
            let tail = text@.subrange(j + 1, n as int);
            assert(first_semi(rest) < rest.len());
            assert(split_semi(rest) == seq![frag] + split_semi(
                rest.subrange(j - frag_start + 1, rest.len() as int),
            ));
            assert(rest.subrange(j - frag_start + 1, rest.len() as int) =~= tail);
            lemma_keep_nonblank_cons(frag, split_semi(tail));
        }
        frag_start = j + 1;
    }
    result
}

} // verus!
