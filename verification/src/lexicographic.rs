//! Lexicographic order on byte strings, and insertion into a sorted list of them.
use vstd::prelude::*;
use vstd::relations::{sorted_by, total_ordering};
use vstd::seq_lib::to_multiset_insert;

verus! {

/// `a` comes no later than `b` in lexicographic order; a proper prefix comes first.
pub open spec fn lex_le(a: Seq<u8>, b: Seq<u8>) -> bool
    decreases a.len(),
{
    if a.len() == 0 {
        true
    } else if b.len() == 0 {
        false
    } else if a[0] != b[0] {
        a[0] < b[0]
    } else {
        lex_le(a.drop_first(), b.drop_first())
    }
}

/// Lexicographic order as a relation.
pub open spec fn lex_order() -> spec_fn(Seq<u8>, Seq<u8>) -> bool {
    |a: Seq<u8>, b: Seq<u8>| lex_le(a, b)
}

/// The contents of a list of byte vectors.
pub open spec fn views(list: Seq<Vec<u8>>) -> Seq<Seq<u8>> {
    list.map_values(|v: Vec<u8>| v@)
}

proof fn lemma_lex_reflexive(a: Seq<u8>)
    ensures
        lex_le(a, a),
    decreases a.len(),
{
    if a.len() > 0 {
        lemma_lex_reflexive(a.drop_first());
    }
}

proof fn lemma_lex_antisymmetric(a: Seq<u8>, b: Seq<u8>)
    requires
        lex_le(a, b),
        lex_le(b, a),
    ensures
        a == b,
    decreases a.len(),
{
    if a.len() > 0 && b.len() > 0 {
        lemma_lex_antisymmetric(a.drop_first(), b.drop_first());
        assert(a =~= seq![a[0]] + a.drop_first());
        assert(b =~= seq![b[0]] + b.drop_first());
    }
    assert(a =~= b);
}

proof fn lemma_lex_transitive(a: Seq<u8>, b: Seq<u8>, c: Seq<u8>)
    requires
        lex_le(a, b),
        lex_le(b, c),
    ensures
        lex_le(a, c),
    decreases a.len(),
{
    if a.len() > 0 && b.len() > 0 && c.len() > 0 && a[0] == b[0] && b[0] == c[0] {
        lemma_lex_transitive(a.drop_first(), b.drop_first(), c.drop_first());
    }
}

proof fn lemma_lex_connected(a: Seq<u8>, b: Seq<u8>)
    ensures
        lex_le(a, b) || lex_le(b, a),
    decreases a.len(),
{
    if a.len() > 0 && b.len() > 0 && a[0] == b[0] {
        lemma_lex_connected(a.drop_first(), b.drop_first());
    }
}

/// Lexicographic order on byte strings is a total order.
pub proof fn lemma_lex_total()
    ensures
        total_ordering(lex_order()),
{
    assert forall|a: Seq<u8>| #[trigger] lex_order()(a, a) by {
        lemma_lex_reflexive(a);
    }
    assert forall|a: Seq<u8>, b: Seq<u8>| #[trigger]
        lex_order()(a, b) && #[trigger] lex_order()(b, a) implies a == b by {
        lemma_lex_antisymmetric(a, b);
    }
    assert forall|a: Seq<u8>, b: Seq<u8>, c: Seq<u8>| #[trigger]
        lex_order()(a, b) && #[trigger] lex_order()(b, c) implies lex_order()(a, c) by {
        lemma_lex_transitive(a, b, c);
    }
    assert forall|a: Seq<u8>, b: Seq<u8>| #[trigger]
        lex_order()(a, b) || #[trigger] lex_order()(b, a) by {
        lemma_lex_connected(a, b);
    }
}

/// Compares two byte strings in lexicographic order.
pub fn lex_le_bytes(a: &[u8], b: &[u8]) -> (r: bool)
    ensures
        r == lex_le(a@, b@),
{
    let mut i: usize = 0;
    proof {
        assert(a@.skip(0) =~= a@);
        assert(b@.skip(0) =~= b@);
    }
    while i < a.len() && i < b.len() && a[i] == b[i]
        invariant
            i <= a.len(),
            i <= b.len(),
            lex_le(a@, b@) == lex_le(a@.skip(i as int), b@.skip(i as int)),
        decreases a.len() - i,
    {
        proof {
            assert(a@.skip(i as int).drop_first() =~= a@.skip(i + 1));
            assert(b@.skip(i as int).drop_first() =~= b@.skip(i + 1));
        }
        i = i + 1;
    }
    if i == a.len() {
        true
    } else if i == b.len() {
        false
    } else {
        a[i] < b[i]
    }
}

/// Inserts `item` into a list kept in lexicographic order, after the items that come no
/// later than it.
pub fn insert_sorted(list: &mut Vec<Vec<u8>>, item: Vec<u8>)
    requires
        sorted_by(views(old(list)@), lex_order()),
    ensures
        sorted_by(views(final(list)@), lex_order()),
        views(final(list)@).to_multiset() == views(old(list)@).to_multiset().insert(item@),
{
    proof {
        lemma_lex_total();
    }
    let ghost before = views(list@);
    let mut j: usize = 0;
    while j < list.len() && lex_le_bytes(list[j].as_slice(), item.as_slice())
        invariant
            j <= list.len(),
            before == views(list@),
            forall|k: int| 0 <= k < j ==> lex_le(#[trigger] before[k], item@),
        decreases list.len() - j,
    {
        j = j + 1;
    }
    proof {
        if j < list.len() {
            lemma_lex_connected(before[j as int], item@);
        }
    }
    let ghost item_view = item@;
    list.insert(j, item);
    proof {
        let after = views(list@);
        assert(after =~= before.insert(j as int, item_view));
        to_multiset_insert(before, j as int, item_view);
        assert forall|x: int, y: int| 0 <= x < y < after.len() implies #[trigger] lex_order()(
            after[x],
            after[y],
        ) by {
            if y < j {
            } else if y == j {
            } else if x < j {
                lemma_lex_transitive(after[x], item_view, before[j as int]);
                if y - 1 > j {
                    assert(lex_order()(before[j as int], before[y - 1]));
                    lemma_lex_transitive(after[x], before[j as int], after[y]);
                }
            } else if x == j {
                if y - 1 > j {
                    assert(lex_order()(before[j as int], before[y - 1]));
                    lemma_lex_transitive(item_view, before[j as int], after[y]);
                }
            } else {
            }
        }
    }
}

} // verus!
