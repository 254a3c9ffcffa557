//! Laws relating the library's spec models, proved once and for all.

use vstd::prelude::*;
use vstd::seq_lib::lemma_multiset_commutative;
use crate::refs::{clean_spec, resolved_refs_spec};
use crate::strutil::{split_lines_spec, trim_spec};

verus! {

/// `items` joined by single `'\n'` separators: the text of a references
/// file whose lines are exactly `items`.
pub open spec fn unlines(items: Seq<Seq<char>>) -> Seq<char>
    decreases items.len(),
{
    if items.len() == 0 {
        Seq::empty()
    } else if items.len() == 1 {
        items[0]
    } else {
        unlines(items.drop_last()) + seq!['\n'] + items.last()
    }
}

/// `t` holds no line separator of its own.
pub open spec fn newline_free(t: Seq<char>) -> bool {
    forall|j: int| 0 <= j < t.len() ==> t[j] != '\n'
}

proof fn lemma_split_single(t: Seq<char>)
    requires
        newline_free(t),
    ensures
        split_lines_spec(t) == seq![t],
    decreases t.len(),
{
    if t.len() == 0 {
        assert(split_lines_spec(t) =~~= seq![t]);
    } else {
        assert(newline_free(t.drop_last()));
        lemma_split_single(t.drop_last());
        assert(t.drop_last().push(t.last()) =~= t);
        assert(split_lines_spec(t) =~= seq![t]);
    }
}

proof fn lemma_split_append_line(s: Seq<char>, t: Seq<char>)
    requires
        newline_free(t),
    ensures
        split_lines_spec(s + seq!['\n'] + t) == split_lines_spec(s).push(t),
    decreases t.len(),
{
    let u = s + seq!['\n'] + t;
    if t.len() == 0 {
        assert(u.drop_last() =~= s);
        assert(u.last() == '\n');
        assert(t =~= Seq::<char>::empty());
        assert(split_lines_spec(u) =~= split_lines_spec(s).push(t));
    } else {
        assert(newline_free(t.drop_last()));
        lemma_split_append_line(s, t.drop_last());
        let u1 = s + seq!['\n'] + t.drop_last();
        assert(u.drop_last() =~= u1);
        assert(u.last() == t.last());
        let rest = split_lines_spec(u1);
        assert(rest == split_lines_spec(s).push(t.drop_last()));
        assert(rest.len() >= 1);
        assert(rest.last() == t.drop_last());
        assert(t.drop_last().push(t.last()) =~= t);
        assert(rest.update(rest.len() - 1, rest.last().push(u.last())) =~= split_lines_spec(
            s,
        ).push(t));
    }
}

proof fn lemma_clean_of_unlines(items: Seq<Seq<char>>)
    requires
        forall|k: int| 0 <= k < items.len() ==> newline_free(#[trigger] items[k]),
    ensures
        clean_spec(split_lines_spec(unlines(items))) == clean_spec(items),
{
    if items.len() == 0 {
        assert(split_lines_spec(unlines(items)) =~= seq![Seq::<char>::empty()]);
        assert(trim_spec(Seq::<char>::empty()) == Seq::<char>::empty());
        assert(seq![Seq::<char>::empty()].drop_last() =~= Seq::<Seq<char>>::empty());
        assert(clean_spec(Seq::<Seq<char>>::empty()) =~= Seq::<Seq<char>>::empty());
        assert(clean_spec(seq![Seq::<char>::empty()]) =~= Seq::<Seq<char>>::empty());
        assert(clean_spec(split_lines_spec(unlines(items))) =~= clean_spec(items));
    } else {
        lemma_split_unlines(items);
    }
}

proof fn lemma_split_unlines(items: Seq<Seq<char>>)
    requires
        items.len() > 0,
        forall|k: int| 0 <= k < items.len() ==> newline_free(#[trigger] items[k]),
    ensures
        split_lines_spec(unlines(items)) == items,
    decreases items.len(),
{
    if items.len() == 1 {
        lemma_split_single(items[0]);
        assert(split_lines_spec(unlines(items)) =~= items);
    } else {
        lemma_split_unlines(items.drop_last());
        lemma_split_append_line(unlines(items.drop_last()), items.last());
        assert(items.drop_last().push(items.last()) =~= items);
    }
}

/// Law: the reference set does not care which source supplied which
/// items. Giving `a` positionally with a file whose lines are `b` yields
/// the same references, as an unordered collection, as giving `b`
/// positionally with a file whose lines are `a`; the order within each
/// outcome is always positional items first, then file lines, as
/// `resolved_refs_spec` states.
pub proof fn lemma_reference_sources_commute(a: Seq<Seq<char>>, b: Seq<Seq<char>>)
    requires
        forall|k: int| 0 <= k < a.len() ==> newline_free(#[trigger] a[k]),
        forall|k: int| 0 <= k < b.len() ==> newline_free(#[trigger] b[k]),
    ensures
        resolved_refs_spec(a, Some(unlines(b))).to_multiset() == resolved_refs_spec(
            b,
            Some(unlines(a)),
        ).to_multiset(),
{
    broadcast use vstd::multiset::group_multiset_axioms;

    lemma_clean_of_unlines(a);
    lemma_clean_of_unlines(b);
    lemma_multiset_commutative(clean_spec(a), clean_spec(b));
    lemma_multiset_commutative(clean_spec(b), clean_spec(a));
    assert(clean_spec(a).to_multiset().add(clean_spec(b).to_multiset()) =~= clean_spec(
        b,
    ).to_multiset().add(clean_spec(a).to_multiset()));
}

} // verus!
