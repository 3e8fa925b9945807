//! The order of capability names: lexicographic by Unicode scalar value,
//! which is the byte order of their UTF-8 encodings.

use vstd::prelude::*;

verus! {

/// Whether `a` comes before `b` as a Unicode scalar value.
pub open spec fn char_before(a: char, b: char) -> bool {
    (a as int) < (b as int)
}

/// Whether the name `a` comes strictly before the name `b`: at the first
/// position where they differ, `a`'s character comes first, or `a` is a
/// proper prefix of `b`.
pub open spec fn name_before(a: Seq<char>, b: Seq<char>) -> bool
    decreases a.len(),
{
    if a.len() == 0 {
        b.len() > 0
    } else if b.len() == 0 {
        false
    } else if a[0] != b[0] {
        char_before(a[0], b[0])
    } else {
        name_before(a.drop_first(), b.drop_first())
    }
}

/// Whether `names` is strictly increasing in name order.
pub open spec fn strictly_sorted(names: Seq<Seq<char>>) -> bool {
    forall|i: int, j: int| 0 <= i < j < names.len() ==> name_before(names[i], names[j])
}

/// No name comes before itself.
pub proof fn lemma_name_before_irreflexive(a: Seq<char>)
    ensures
        !name_before(a, a),
    decreases a.len(),
{
    if a.len() > 0 {
        lemma_name_before_irreflexive(a.drop_first());
    }
}

/// Name order is transitive.
pub proof fn lemma_name_before_transitive(a: Seq<char>, b: Seq<char>, c: Seq<char>)
    requires
        name_before(a, b),
        name_before(b, c),
    ensures
        name_before(a, c),
    decreases a.len(),
{
    if a.len() > 0 && b.len() > 0 && c.len() > 0 {
        if a[0] == b[0] && b[0] == c[0] {
            lemma_name_before_transitive(a.drop_first(), b.drop_first(), c.drop_first());
        }
    }
}

/// Of two different names, one comes before the other.
pub proof fn lemma_name_before_total(a: Seq<char>, b: Seq<char>)
    requires
        a != b,
    ensures
        name_before(a, b) || name_before(b, a),
    decreases a.len(),
{
    if a.len() > 0 && b.len() > 0 && a[0] == b[0] {
        assert(a =~= seq![a[0]] + a.drop_first());
        assert(b =~= seq![b[0]] + b.drop_first());
        lemma_name_before_total(a.drop_first(), b.drop_first());
    } else if a.len() == 0 && b.len() == 0 {
        assert(a =~= b);
    } else if a.len() > 0 && b.len() > 0 {
        assert((a[0] as int) != (b[0] as int));
    }
}

/// A strictly increasing sequence of names holds each name once.
pub proof fn lemma_sorted_no_duplicates(names: Seq<Seq<char>>)
    requires
        strictly_sorted(names),
    ensures
        names.no_duplicates(),
{
    assert forall|i: int, j: int|
        0 <= i < names.len() && 0 <= j < names.len() && i != j implies names[i] != names[j] by {
        if i < j {
            lemma_name_before_irreflexive(names[i]);
        } else {
            lemma_name_before_irreflexive(names[j]);
        }
    }
}

/// Whether the name `a` comes strictly before the name `b`.
pub fn name_precedes(a: &str, b: &str) -> (r: bool)
    ensures
        r == name_before(a@, b@),
{
    let la = a.unicode_len();
    let lb = b.unicode_len();
    let mut i: usize = 0;
    proof {
        assert(a@.skip(0) =~= a@);
        assert(b@.skip(0) =~= b@);
    }
    while i < la && i < lb
        invariant
            i <= la,
            i <= lb,
            la == a@.len(),
            lb == b@.len(),
            name_before(a@, b@) == name_before(a@.skip(i as int), b@.skip(i as int)),
        decreases la - i,
    {
        let ca = a.get_char(i);
        let cb = b.get_char(i);
        proof {
            assert(a@.skip(i as int)[0] == ca);
            assert(b@.skip(i as int)[0] == cb);
        }
        if ca != cb {
            return ca < cb;
        }
        proof {
            assert(a@.skip(i as int).drop_first() =~= a@.skip(i + 1));
            assert(b@.skip(i as int).drop_first() =~= b@.skip(i + 1));
        }
        i = i + 1;
    }
    i == la && i < lb
}

} // verus!
