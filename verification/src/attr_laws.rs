//! What holds of feature collection and of attribute filtering in general.

use vstd::prelude::*;
use crate::attrs::{
    configured, cut_point, declared_features, declared_in, expanded, lemma_with_attrs,
    lemma_with_word, with_entries, with_word, Attribute, MetaEntry,
};

verus! {

/// Recording a name is idempotent: a second recording of the same name
/// changes nothing.
pub proof fn lemma_record_twice(found: Seq<Seq<char>>, word: Seq<char>)
    ensures
        with_word(with_word(found, word), word) == with_word(found, word),
{
    lemma_with_word(found, word);
}

/// The declared features hold no name twice, and hold exactly the names that
/// some attribute declares.
pub proof fn lemma_declared_features(attrs: Seq<Attribute>)
    ensures
        declared_features(attrs).no_duplicates(),
        forall|w: Seq<char>| #[trigger]
            declared_features(attrs).contains(w) <==> declared_in(attrs, w),
{
    lemma_with_attrs(Seq::empty(), attrs);
}

/// The set of declared features does not depend on the order of the
/// attributes: two lists with the same attributes, each as often as in the
/// other, declare the same set.
pub proof fn lemma_order_independent(a: Seq<Attribute>, b: Seq<Attribute>)
    requires
        a.to_multiset() == b.to_multiset(),
    ensures
        declared_features(a).to_set() == declared_features(b).to_set(),
{
    lemma_declared_features(a);
    lemma_declared_features(b);
    assert forall|w: Seq<char>| declared_in(a, w) <==> declared_in(b, w) by {
        if declared_in(a, w) {
            lemma_declared_in_transfers(a, b, w);
        }
        if declared_in(b, w) {
            lemma_declared_in_transfers(b, a, w);
        }
    }
    assert(declared_features(a).to_set() =~= declared_features(b).to_set());
}

proof fn lemma_declared_in_transfers(a: Seq<Attribute>, b: Seq<Attribute>, w: Seq<char>)
    requires
        a.to_multiset() == b.to_multiset(),
        declared_in(a, w),
    ensures
        declared_in(b, w),
{
    let i = choose|i: int| 0 <= i < a.len() && (#[trigger] a[i]).declares(w);
    assert(a.contains(a[i]));
    vstd::seq_lib::to_multiset_contains(a, a[i]);
    vstd::seq_lib::to_multiset_contains(b, a[i]);
    let k = choose|k: int| 0 <= k < b.len() && b[k] == a[i];
    assert(b[k].declares(w));
}

/// An entry that is no bare identifier is passed over: the features collected
/// from a list are those collected from the list without that entry.
pub proof fn lemma_malformed_entry_skipped(
    found: Seq<Seq<char>>,
    entries: Seq<MetaEntry>,
    k: int,
)
    requires
        0 <= k < entries.len(),
        !(entries[k] is Word),
    ensures
        with_entries(found, entries) == with_entries(found, entries.remove(k)),
    decreases entries.len(),
{
    let front = entries.drop_last();
    if k == entries.len() - 1 {
        assert(entries.remove(k) =~= front);
    } else {
        lemma_malformed_entry_skipped(found, front, k);
        assert(entries.remove(k).drop_last() =~= front.remove(k));
        assert(entries.remove(k).last() == entries.last());
    }
}

/// Attributes that hold no `cfg` and no `cfg_attr` pass the filter unchanged,
/// whatever the flags.
pub proof fn lemma_unguarded_unchanged(attrs: Seq<Attribute>, flags: Seq<Seq<char>>)
    requires
        forall|i: int| 0 <= i < attrs.len() ==> !(attrs[i] is Cfg) && !(attrs[i] is CfgAttr),
    ensures
        expanded(attrs, flags) == attrs,
        cut_point(attrs, flags) == attrs.len(),
        configured(attrs, flags) == attrs,
    decreases attrs.len(),
{
    if attrs.len() > 0 {
        let rest = attrs.drop_first();
        assert forall|i: int| 0 <= i < rest.len() implies !(rest[i] is Cfg) && !(rest[i] is CfgAttr) by {
            assert(rest[i] == attrs[i + 1]);
        }
        lemma_unguarded_unchanged(rest, flags);
        assert(!(attrs[0] is Cfg) && !(attrs[0] is CfgAttr));
        assert(seq![attrs[0]] + rest =~= attrs);
    }
    assert(attrs.take(attrs.len() as int) =~= attrs);
}

/// A `cfg_attr` standing alone gives what it holds where its predicate holds
/// under the flags, and nothing where it does not.
pub proof fn lemma_guarded(guard: Attribute, flags: Seq<Seq<char>>)
    requires
        guard is CfgAttr,
    ensures
        guard->CfgAttr_predicate.holds(flags) ==> configured(seq![guard], flags) == configured(
            guard->CfgAttr_attrs@,
            flags,
        ),
        !guard->CfgAttr_predicate.holds(flags) ==> configured(seq![guard], flags)
            == Seq::<Attribute>::empty(),
        !guard->CfgAttr_predicate.holds(flags) ==> declared_features(
            configured(seq![guard], flags),
        ) == Seq::<Seq<char>>::empty(),
{
    let one = seq![guard];
    assert(one.drop_first() =~= Seq::<Attribute>::empty());
    assert(expanded(one.drop_first(), flags) =~= Seq::<Attribute>::empty());
    if guard->CfgAttr_predicate.holds(flags) {
        let inner = expanded(guard->CfgAttr_attrs@, flags);
        assert(expanded(one, flags) =~= inner);
    } else {
        assert(expanded(one, flags) =~= Seq::<Attribute>::empty());
        assert(configured(one, flags) =~= Seq::<Attribute>::empty());
    }
}

/// A `cfg` guard that fails drops itself and every attribute after it: of
/// attributes without `cfg_attr`, those before the first failed guard stay.
pub proof fn lemma_failed_guard_cuts(attrs: Seq<Attribute>, flags: Seq<Seq<char>>, at: int)
    requires
        0 <= at < attrs.len(),
        attrs[at].is_failed_guard(flags),
        forall|i: int| 0 <= i < at ==> !(#[trigger] attrs[i]).is_failed_guard(flags),
        forall|i: int| 0 <= i < attrs.len() ==> !(attrs[i] is CfgAttr),
    ensures
        configured(attrs, flags) == attrs.take(at),
{
    lemma_plain_expanded(attrs, flags);
    lemma_cut_point(attrs, flags, at);
}

proof fn lemma_plain_expanded(attrs: Seq<Attribute>, flags: Seq<Seq<char>>)
    requires
        forall|i: int| 0 <= i < attrs.len() ==> !(attrs[i] is CfgAttr),
    ensures
        expanded(attrs, flags) == attrs,
    decreases attrs.len(),
{
    if attrs.len() > 0 {
        let rest = attrs.drop_first();
        assert forall|i: int| 0 <= i < rest.len() implies !(rest[i] is CfgAttr) by {
            assert(rest[i] == attrs[i + 1]);
        }
        lemma_plain_expanded(rest, flags);
        assert(!(attrs[0] is CfgAttr));
        assert(seq![attrs[0]] + rest =~= attrs);
    }
}

proof fn lemma_cut_point(attrs: Seq<Attribute>, flags: Seq<Seq<char>>, at: int)
    requires
        0 <= at < attrs.len(),
        attrs[at].is_failed_guard(flags),
        forall|i: int| 0 <= i < at ==> !(#[trigger] attrs[i]).is_failed_guard(flags),
    ensures
        cut_point(attrs, flags) == at,
    decreases at,
{
    if at > 0 {
        let rest = attrs.drop_first();
        assert(!attrs[0].is_failed_guard(flags));
        assert(rest[at - 1] == attrs[at]);
        assert forall|i: int| 0 <= i < at - 1 implies !(#[trigger] rest[i]).is_failed_guard(flags) by {
            assert(rest[i] == attrs[i + 1]);
        }
        lemma_cut_point(rest, flags, at - 1);
    }
}

} // verus!
