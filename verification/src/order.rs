//! Lexicographic order on character sequences (the order of `String`'s
//! `Ord`) and the facts about it that sorting relies on.

use vstd::prelude::*;
use crate::text::chars_of;

verus! {

/// `a` sorts strictly before `b` in code-point lexicographic order, which is
/// the order `String::cmp` gives (UTF-8 byte order preserves it).
pub open spec fn seq_lt(a: Seq<char>, b: Seq<char>) -> bool
    decreases a.len(),
{
    if a.len() == 0 {
        b.len() > 0
    } else if b.len() == 0 {
        false
    } else if (a[0] as int) < (b[0] as int) {
        true
    } else if (a[0] as int) > (b[0] as int) {
        false
    } else {
        seq_lt(a.drop_first(), b.drop_first())
    }
}

pub proof fn lemma_seq_lt_irreflexive(a: Seq<char>)
    ensures
        !seq_lt(a, a),
    decreases a.len(),
{
    if a.len() > 0 {
        lemma_seq_lt_irreflexive(a.drop_first());
    }
}

pub proof fn lemma_seq_lt_asymmetric(a: Seq<char>, b: Seq<char>)
    ensures
        !(seq_lt(a, b) && seq_lt(b, a)),
    decreases a.len(),
{
    if a.len() > 0 && b.len() > 0 && (a[0] as int) == (b[0] as int) {
        lemma_seq_lt_asymmetric(a.drop_first(), b.drop_first());
    }
}

pub proof fn lemma_seq_lt_transitive(a: Seq<char>, b: Seq<char>, c: Seq<char>)
    requires
        seq_lt(a, b),
        seq_lt(b, c),
    ensures
        seq_lt(a, c),
    decreases a.len(),
{
    if a.len() > 0 && b.len() > 0 && c.len() > 0 {
        if (a[0] as int) == (b[0] as int) && (b[0] as int) == (c[0] as int) {
            lemma_seq_lt_transitive(a.drop_first(), b.drop_first(), c.drop_first());
        }
    }
}

pub proof fn lemma_seq_lt_total(a: Seq<char>, b: Seq<char>)
    ensures
        seq_lt(a, b) || seq_lt(b, a) || a == b,
    decreases a.len(),
{
    if a.len() > 0 && b.len() > 0 && (a[0] as int) == (b[0] as int) {
        lemma_seq_lt_total(a.drop_first(), b.drop_first());
        if a.drop_first() == b.drop_first() {
            assert(a[0] == b[0]);
            assert(a.len() == b.len()) by {
                assert(a.drop_first().len() == b.drop_first().len());
            }
            assert(a =~= b) by {
                assert forall|k: int| 0 <= k < a.len() implies a[k] == b[k] by {
                    if k > 0 {
                        assert(a[k] == a.drop_first()[k - 1]);
                        assert(b[k] == b.drop_first()[k - 1]);
                        assert(a.drop_first()[k - 1] == b.drop_first()[k - 1]);
                    }
                }
            }
        }
    } else if a.len() > 0 && b.len() > 0 {
    } else if a.len() == 0 && b.len() > 0 {
    } else if a.len() > 0 && b.len() == 0 {
    } else if a.len() == 0 && b.len() == 0 {
        assert(a =~= b);
    }
}

/// Whether `a` sorts strictly before `b` (`a.cmp(b) == Less` for strings).
pub fn str_lt(a: &str, b: &str) -> (r: bool)
    ensures
        r == seq_lt(a@, b@),
{
    let va = chars_of(a);
    let vb = chars_of(b);
    let mut i: usize = 0;
    assert(a@.skip(0) =~= a@);
    assert(b@.skip(0) =~= b@);
    while i < va.len() && i < vb.len()
        invariant
            va@ == a@,
            vb@ == b@,
            i <= va@.len(),
            i <= vb@.len(),
            seq_lt(a@, b@) == seq_lt(a@.skip(i as int), b@.skip(i as int)),
        decreases va.len() - i,
    {
        let x = va[i];
        let y = vb[i];
        let ghost sa = a@.skip(i as int);
        let ghost sb = b@.skip(i as int);
        assert(sa[0] == x);
        assert(sb[0] == y);
        if x < y {
            return true;
        }
        if x > y {
            return false;
        }
        assert(sa.drop_first() =~= a@.skip(i + 1));
        assert(sb.drop_first() =~= b@.skip(i + 1));
        i = i + 1;
    }
    i == va.len() && i < vb.len()
}

/// A rank for ordering: a class (lower classes first) and a key compared
/// ascending or descending within the class.
pub open spec fn rank_lt(desc: bool, a: (int, Seq<char>), b: (int, Seq<char>)) -> bool {
    a.0 < b.0 || (a.0 == b.0 && if desc {
        seq_lt(b.1, a.1)
    } else {
        seq_lt(a.1, b.1)
    })
}

pub proof fn lemma_rank_lt_irreflexive(desc: bool, a: (int, Seq<char>))
    ensures
        !rank_lt(desc, a, a),
{
    lemma_seq_lt_irreflexive(a.1);
}

pub proof fn lemma_rank_lt_asymmetric(desc: bool, a: (int, Seq<char>), b: (int, Seq<char>))
    ensures
        !(rank_lt(desc, a, b) && rank_lt(desc, b, a)),
{
    lemma_seq_lt_asymmetric(a.1, b.1);
}

pub proof fn lemma_rank_lt_transitive(
    desc: bool,
    a: (int, Seq<char>),
    b: (int, Seq<char>),
    c: (int, Seq<char>),
)
    requires
        rank_lt(desc, a, b),
        rank_lt(desc, b, c),
    ensures
        rank_lt(desc, a, c),
{
    if a.0 == b.0 && b.0 == c.0 {
        if desc {
            lemma_seq_lt_transitive(c.1, b.1, a.1);
        } else {
            lemma_seq_lt_transitive(a.1, b.1, c.1);
        }
    }
}

/// Not-before is transitive: ranks form a total preorder.
pub proof fn lemma_rank_not_lt_transitive(
    desc: bool,
    a: (int, Seq<char>),
    b: (int, Seq<char>),
    c: (int, Seq<char>),
)
    requires
        !rank_lt(desc, a, b),
        !rank_lt(desc, b, c),
    ensures
        !rank_lt(desc, a, c),
{
    if a.0 == b.0 && b.0 == c.0 {
        if desc {
            lemma_seq_le_transitive(a.1, b.1, c.1);
            lemma_seq_le_iff_not_lt(a.1, c.1);
        } else {
            lemma_seq_le_transitive(c.1, b.1, a.1);
            lemma_seq_le_iff_not_lt(c.1, a.1);
        }
    }
}

/// `a` sorts before `b` or equals it.
pub open spec fn seq_le(a: Seq<char>, b: Seq<char>) -> bool {
    seq_lt(a, b) || a == b
}

pub proof fn lemma_seq_le_iff_not_lt(a: Seq<char>, b: Seq<char>)
    ensures
        seq_le(a, b) == !seq_lt(b, a),
{
    lemma_seq_lt_total(a, b);
    lemma_seq_lt_asymmetric(a, b);
    lemma_seq_lt_irreflexive(a);
}

pub proof fn lemma_seq_le_transitive(a: Seq<char>, b: Seq<char>, c: Seq<char>)
    requires
        !seq_lt(b, a),
        !seq_lt(c, b),
    ensures
        seq_le(a, c),
{
    lemma_seq_le_iff_not_lt(a, b);
    lemma_seq_le_iff_not_lt(b, c);
    if seq_lt(a, b) && seq_lt(b, c) {
        lemma_seq_lt_transitive(a, b, c);
    }
}

} // verus!
