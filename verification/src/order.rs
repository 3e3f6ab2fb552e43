//! Lexicographic order on strings, compared character by character by
//! code point, and a sort that presents directory listings in a stable,
//! predictable order.

use vstd::prelude::*;
use vstd::string::*;
use vstd::seq_lib::*;
use vstd::multiset::Multiset;

verus! {

/// `a` is lexicographically at most `b`: at the first differing
/// position the smaller code point wins, and a prefix precedes every
/// extension of it.
pub open spec fn lex_le(a: Seq<char>, b: Seq<char>) -> bool
    decreases a.len(),
{
    if a.len() == 0 {
        true
    } else if b.len() == 0 {
        false
    } else if (a[0] as u32) < (b[0] as u32) {
        true
    } else if (b[0] as u32) < (a[0] as u32) {
        false
    } else {
        lex_le(a.drop_first(), b.drop_first())
    }
}

/// The order is reflexive.
pub proof fn lemma_lex_le_refl(a: Seq<char>)
    ensures
        lex_le(a, a),
    decreases a.len(),
{
    if a.len() > 0 {
        lemma_lex_le_refl(a.drop_first());
    }
}

/// The order is total: of two strings one is at most the other.
pub proof fn lemma_lex_le_total(a: Seq<char>, b: Seq<char>)
    ensures
        lex_le(a, b) || lex_le(b, a),
    decreases a.len(),
{
    if a.len() > 0 && b.len() > 0 && (a[0] as u32) == (b[0] as u32) {
        lemma_lex_le_total(a.drop_first(), b.drop_first());
    }
}

/// The order is transitive.
pub proof fn lemma_lex_le_trans(a: Seq<char>, b: Seq<char>, c: Seq<char>)
    requires
        lex_le(a, b),
        lex_le(b, c),
    ensures
        lex_le(a, c),
    decreases a.len(),
{
    if a.len() > 0 {
        if (a[0] as u32) == (b[0] as u32) && (b[0] as u32) == (c[0] as u32) {
            lemma_lex_le_trans(a.drop_first(), b.drop_first(), c.drop_first());
        }
    }
}

/// Compares two strings in the lexicographic order.
pub fn lex_le_exec(a: &str, b: &str) -> (r: bool)
    ensures
        r == lex_le(a@, b@),
{
    let alen = a.unicode_len();
    let blen = b.unicode_len();
    let mut i: usize = 0;
    proof {
        assert(a@.skip(0) =~= a@);
        assert(b@.skip(0) =~= b@);
    }
    loop
        invariant
            0 <= i <= alen,
            0 <= i <= blen,
            alen == a@.len(),
            blen == b@.len(),
            lex_le(a@, b@) == lex_le(a@.skip(i as int), b@.skip(i as int)),
        decreases alen - i,
    {
        if i == alen {
            proof {
                assert(a@.skip(i as int).len() == 0);
            }
            return true;
        }
        if i == blen {
            proof {
                assert(b@.skip(i as int).len() == 0);
                assert(a@.skip(i as int).len() > 0);
            }
            return false;
        }
        let ca = a.get_char(i);
        let cb = b.get_char(i);
        proof {
            assert(a@.skip(i as int)[0] == a@[i as int]);
            assert(b@.skip(i as int)[0] == b@[i as int]);
            assert(a@.skip(i as int).drop_first() =~= a@.skip(i + 1 as int));
            assert(b@.skip(i as int).drop_first() =~= b@.skip(i + 1 as int));
        }
        if (ca as u32) < (cb as u32) {
            return true;
        }
        if (cb as u32) < (ca as u32) {
            return false;
        }
        i = i + 1;
    }
}

/// The views of a sequence of strings.
pub open spec fn string_views(s: Seq<String>) -> Seq<Seq<char>> {
    s.map_values(|x: String| x@)
}

/// Sorted in the lexicographic order.
pub open spec fn sorted_lex(s: Seq<Seq<char>>) -> bool {
    forall|i: int, j: int| 0 <= i < j < s.len() ==> lex_le(#[trigger] s[i], #[trigger] s[j])
}

/// Pushing a string onto a sequence pushes its view.
pub proof fn lemma_views_push(s: Seq<String>, x: String)
    ensures
        string_views(s.push(x)) =~= string_views(s).push(x@),
{
}

/// Removing a string from a sequence removes its view.
pub proof fn lemma_views_remove(s: Seq<String>, i: int)
    requires
        0 <= i < s.len(),
    ensures
        string_views(s.remove(i)) =~= string_views(s).remove(i),
{
}

/// Sorts the strings in ascending lexicographic order; the result
/// holds exactly the given strings, with multiplicity.
pub fn sort_strings(v: Vec<String>) -> (r: Vec<String>)
    ensures
        sorted_lex(string_views(r@)),
        string_views(r@).to_multiset() == string_views(v@).to_multiset(),
{
    broadcast use group_to_multiset_ensures;

    let ghost goal = string_views(v@).to_multiset();
    let mut work = v;
    let mut out: Vec<String> = Vec::new();
    proof {
        assert(string_views(out@) =~= Seq::empty());
        assert(string_views(out@).to_multiset().add(string_views(work@).to_multiset())
            =~= goal);
    }
    while work.len() > 0
        invariant
            string_views(out@).to_multiset().add(string_views(work@).to_multiset()) == goal,
            sorted_lex(string_views(out@)),
            forall|p: int, q: int|
                0 <= p < out@.len() && 0 <= q < work@.len() ==> lex_le(
                    #[trigger] string_views(out@)[p],
                    #[trigger] string_views(work@)[q],
                ),
        decreases work@.len(),
    {
        let ghost wseq = work@;
        let mut m: usize = 0;
        let mut j: usize = 1;
        proof {
            lemma_lex_le_refl(work@[0]@);
        }
        while j < work.len()
            invariant
                work@ == wseq,
                wseq.len() > 0,
                0 <= m < j <= wseq.len(),
                forall|k: int| 0 <= k < j ==> lex_le(string_views(wseq)[m as int], #[trigger] string_views(wseq)[k]),
            decreases wseq.len() - j,
        {
            if lex_le_exec(work[j].as_str(), work[m].as_str()) {
                proof {
                    assert forall|k: int| 0 <= k < j + 1 implies lex_le(
                        string_views(wseq)[j as int],
                        #[trigger] string_views(wseq)[k],
                    ) by {
                        assert(string_views(wseq)[j as int] == wseq[j as int]@);
                        assert(string_views(wseq)[m as int] == wseq[m as int]@);
                        if k < j {
                            assert(string_views(wseq)[k] == wseq[k]@);
                            lemma_lex_le_trans(wseq[j as int]@, wseq[m as int]@, wseq[k]@);
                        } else {
                            lemma_lex_le_refl(wseq[j as int]@);
                        }
                    }
                }
                m = j;
            } else {
                proof {
                    assert(string_views(wseq)[j as int] == wseq[j as int]@);
                    assert(string_views(wseq)[m as int] == wseq[m as int]@);
                    lemma_lex_le_total(wseq[j as int]@, wseq[m as int]@);
                    lemma_lex_le_refl(wseq[j as int]@);
                }
            }
            j = j + 1;
        }
        let s = work.remove(m);
        proof {
            lemma_views_remove(wseq, m as int);
            assert(string_views(wseq)[m as int] == s@);
            // the removed minimum stays below everything still in work
            assert forall|q: int| 0 <= q < work@.len() implies lex_le(
                s@,
                #[trigger] string_views(work@)[q],
            ) by {
                if q < m {
                    assert(string_views(work@)[q] == string_views(wseq)[q]);
                } else {
                    assert(string_views(work@)[q] == string_views(wseq)[q + 1]);
                }
            }
        }
        let ghost out_before = out@;
        out.push(s);
        proof {
            lemma_views_push(out_before, s);
            // multiset bookkeeping: one string moved from work to out
            to_multiset_build(string_views(out_before), s@);
            to_multiset_remove(string_views(wseq), m as int);
            assert(string_views(out_before).push(s@).to_multiset()
                =~= string_views(out_before).to_multiset().insert(s@));
            assert(string_views(out@).to_multiset() =~= string_views(out_before).to_multiset()
                .insert(s@));
            assert(string_views(wseq).remove(m as int).to_multiset()
                =~= string_views(wseq).to_multiset().remove(string_views(wseq)[m as int]));
            assert(string_views(work@).to_multiset() =~= string_views(wseq).to_multiset().remove(
                s@,
            ));
            to_multiset_contains(string_views(wseq), s@);
            assert(string_views(wseq).contains(s@));
            assert(string_views(wseq).to_multiset().count(s@) > 0);
            assert(string_views(out@).to_multiset().add(string_views(work@).to_multiset())
                =~= string_views(out_before).to_multiset().add(
                string_views(wseq).to_multiset(),
            ));
            // sortedness: the new last element is above all earlier ones
            assert forall|p: int, q: int|
                0 <= p < q < string_views(out@).len() implies lex_le(
                #[trigger] string_views(out@)[p],
                #[trigger] string_views(out@)[q],
            ) by {
                if q < out_before.len() {
                    assert(string_views(out@)[p] == string_views(out_before)[p]);
                    assert(string_views(out@)[q] == string_views(out_before)[q]);
                } else {
                    assert(string_views(out@)[q] == s@);
                    assert(string_views(out@)[p] == string_views(out_before)[p]);
                    assert(lex_le(string_views(out_before)[p], string_views(wseq)[m as int]));
                }
            }
        }
    }
    proof {
        assert(string_views(work@).to_multiset() =~= Multiset::empty());
        assert(string_views(out@).to_multiset() =~= goal);
    }
    out
}

} // verus!
