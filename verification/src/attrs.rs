//! The root attributes of a module and the features they declare.

use vstd::prelude::*;
use crate::cfg::CfgPredicate;
use crate::text::{contains_text, text_is, texts};

verus! {

/// One entry of an attribute's parenthesized list.
#[derive(Debug)]
pub enum MetaEntry {
    /// A bare identifier, as `a` in `feature(a)`.
    Word { name: String },
    /// A key with a value, as `a = "x"`.
    KeyValue { key: String, value: String },
    /// A further list, as `nested(a)`; only its name is kept.
    List { name: String },
    /// Anything that is no identifier: a literal or a longer path.
    Literal { text: String },
}

/// One attribute at the root of a module.
#[derive(Debug)]
pub enum Attribute {
    /// A simple marker, as `no_std`.
    Marker { name: String },
    /// A named list, as `feature(a, b)`.
    List { name: String, entries: Vec<MetaEntry> },
    /// A name with a value, as `crate_name = "x"`.
    KeyValue { name: String, value: String },
    /// A guard on everything that follows it, as `cfg(unix)`.
    Cfg { predicate: CfgPredicate },
    /// Attributes that exist only where the predicate holds, as
    /// `cfg_attr(unix, feature(a))`.
    CfgAttr { predicate: CfgPredicate, attrs: Vec<Attribute> },
}

impl MetaEntry {
    /// Whether the entry is the bare identifier `word`.
    pub open spec fn is_word(self, word: Seq<char>) -> bool {
        self matches MetaEntry::Word { name } && name@ == word
    }
}

impl Attribute {
    /// Whether this attribute declares the feature `word`: it is a `feature`
    /// list and one of its entries is that bare identifier.
    pub open spec fn declares(self, word: Seq<char>) -> bool {
        self matches Attribute::List { name, entries } && name@ == "feature"@ && exists|j: int|
            0 <= j < entries.len() && (#[trigger] entries[j]).is_word(word)
    }
}

/// Whether some attribute of `attrs` declares the feature `word`.
pub open spec fn declared_in(attrs: Seq<Attribute>, word: Seq<char>) -> bool {
    exists|i: int| 0 <= i < attrs.len() && (#[trigger] attrs[i]).declares(word)
}

/// `found` with `word` added at the end, unless it is there already.
pub open spec fn with_word(found: Seq<Seq<char>>, word: Seq<char>) -> Seq<Seq<char>> {
    if found.contains(word) {
        found
    } else {
        found.push(word)
    }
}

/// `found` after the bare identifiers of `entries` were added in order; every
/// other entry is passed over.
pub open spec fn with_entries(found: Seq<Seq<char>>, entries: Seq<MetaEntry>) -> Seq<Seq<char>>
    decreases entries.len(),
{
    if entries.len() == 0 {
        found
    } else {
        let before = with_entries(found, entries.drop_last());
        match entries.last() {
            MetaEntry::Word { name } => with_word(before, name@),
            _ => before,
        }
    }
}

/// `found` after the declarations of `attrs` were added in order.
pub open spec fn with_attrs(found: Seq<Seq<char>>, attrs: Seq<Attribute>) -> Seq<Seq<char>>
    decreases attrs.len(),
{
    if attrs.len() == 0 {
        found
    } else {
        let before = with_attrs(found, attrs.drop_last());
        match attrs.last() {
            Attribute::List { name, entries } => if name@ == "feature"@ {
                with_entries(before, entries@)
            } else {
                before
            },
            _ => before,
        }
    }
}

/// The features that `attrs` declare: each name once, in the order of its
/// first declaration.
pub open spec fn declared_features(attrs: Seq<Attribute>) -> Seq<Seq<char>> {
    with_attrs(Seq::empty(), attrs)
}

/// Adding entries keeps a duplicate-free sequence duplicate-free, and the
/// result holds what was there before and the bare identifiers of the
/// entries, nothing else.
pub proof fn lemma_with_entries(found: Seq<Seq<char>>, entries: Seq<MetaEntry>)
    requires
        found.no_duplicates(),
    ensures
        with_entries(found, entries).no_duplicates(),
        forall|w: Seq<char>| #[trigger]
            with_entries(found, entries).contains(w) <==> (found.contains(w) || exists|j: int|
                0 <= j < entries.len() && (#[trigger] entries[j]).is_word(w)),
    decreases entries.len(),
{
    if entries.len() > 0 {
        let front = entries.drop_last();
        lemma_with_entries(found, front);
        let before = with_entries(found, front);
        let after = with_entries(found, entries);
        assert forall|w: Seq<char>| #[trigger]
            after.contains(w) <==> (found.contains(w) || exists|j: int|
                0 <= j < entries.len() && (#[trigger] entries[j]).is_word(w)) by {
            if after.contains(w) {
                if before.contains(w) {
                    if !found.contains(w) {
                        let j = choose|j: int|
                            0 <= j < front.len() && (#[trigger] front[j]).is_word(w);
                        assert(entries[j].is_word(w));
                    }
                } else {
                    assert(entries[entries.len() - 1].is_word(w));
                }
            }
            if exists|j: int| 0 <= j < entries.len() && (#[trigger] entries[j]).is_word(w) {
                let j = choose|j: int| 0 <= j < entries.len() && (#[trigger] entries[j]).is_word(w);
                if j < front.len() {
                    assert(front[j].is_word(w));
                    assert(before.contains(w));
                } else {
                    assert(entries.last().is_word(w));
                }
                lemma_with_word(before, w);
            }
            if found.contains(w) {
                assert(before.contains(w));
            }
            if let MetaEntry::Word { name } = entries.last() {
                lemma_with_word(before, name@);
            }
        }
        if let MetaEntry::Word { name } = entries.last() {
            lemma_with_word(before, name@);
        }
    }
}

/// What `with_word` holds, and that it keeps a sequence duplicate-free.
pub proof fn lemma_with_word(found: Seq<Seq<char>>, word: Seq<char>)
    ensures
        found.no_duplicates() ==> with_word(found, word).no_duplicates(),
        forall|w: Seq<char>| #[trigger]
            with_word(found, word).contains(w) <==> (found.contains(w) || w == word),
{
    let after = with_word(found, word);
    assert forall|w: Seq<char>| #[trigger]
        after.contains(w) <==> (found.contains(w) || w == word) by {
        if found.contains(word) {
        } else {
            if after.contains(w) {
                let k = choose|k: int| 0 <= k < after.len() && after[k] == w;
                if k < found.len() {
                    assert(found[k] == w);
                }
            }
            if found.contains(w) {
                let k = choose|k: int| 0 <= k < found.len() && found[k] == w;
                assert(after[k] == w);
            }
            assert(after[found.len() as int] == word);
        }
    }
}

/// Adding attributes keeps a duplicate-free sequence duplicate-free, and the
/// result holds what was there before and the features that the attributes
/// declare, nothing else.
pub proof fn lemma_with_attrs(found: Seq<Seq<char>>, attrs: Seq<Attribute>)
    requires
        found.no_duplicates(),
    ensures
        with_attrs(found, attrs).no_duplicates(),
        forall|w: Seq<char>| #[trigger]
            with_attrs(found, attrs).contains(w) <==> (found.contains(w) || declared_in(attrs, w)),
    decreases attrs.len(),
{
    if attrs.len() > 0 {
        let front = attrs.drop_last();
        let last = attrs.last();
        lemma_with_attrs(found, front);
        let before = with_attrs(found, front);
        let after = with_attrs(found, attrs);
        if let Attribute::List { name, entries } = last {
            if name@ == "feature"@ {
                lemma_with_entries(before, entries@);
            }
        }
        assert forall|w: Seq<char>| #[trigger]
            after.contains(w) <==> (found.contains(w) || declared_in(attrs, w)) by {
            if declared_in(front, w) {
                let i = choose|i: int| 0 <= i < front.len() && (#[trigger] front[i]).declares(w);
                assert(attrs[i].declares(w));
            }
            if declared_in(attrs, w) {
                let i = choose|i: int| 0 <= i < attrs.len() && (#[trigger] attrs[i]).declares(w);
                if i < front.len() {
                    assert(front[i].declares(w));
                } else {
                    assert(last.declares(w));
                }
            }
            if last.declares(w) {
                assert(attrs[attrs.len() - 1].declares(w));
            }
        }
    }
}

/// Records `name` as declared. A name that is recorded already changes
/// nothing.
pub fn declare(found: &mut Vec<String>, name: &String)
    ensures
        texts(final(found)@) == with_word(texts(old(found)@), name@),
{
    if !contains_text(found, name) {
        let ghost before = texts(found@);
        found.push(name.clone());
        assert(texts(found@) =~= before.push(name@));
    }
}

/// Collects the features that `attrs` declare. Only list attributes named
/// `feature` count, and of their entries only bare identifiers; every other
/// entry is passed over without failing.
pub fn features(attrs: &Vec<Attribute>) -> (found: Vec<String>)
    ensures
        texts(found@) == declared_features(attrs@),
        texts(found@).no_duplicates(),
        forall|w: Seq<char>| #[trigger] texts(found@).contains(w) <==> declared_in(attrs@, w),
{
    let mut found: Vec<String> = Vec::new();
    let mut i: usize = 0;
    assert(texts(found@) =~= Seq::<Seq<char>>::empty());
    while i < attrs.len()
        invariant
            i <= attrs.len(),
            texts(found@) == with_attrs(Seq::empty(), attrs@.take(i as int)),
        decreases attrs.len() - i,
    {
        let ghost before = texts(found@);
        match &attrs[i] {
            Attribute::List { name, entries } => {
                if text_is(name, "feature") {
                    let mut j: usize = 0;
                    while j < entries.len()
                        invariant
                            j <= entries.len(),
                            texts(found@) == with_entries(before, entries@.take(j as int)),
                        decreases entries.len() - j,
                    {
                        match &entries[j] {
                            MetaEntry::Word { name: word } => {
                                declare(&mut found, word);
                            },
                            _ => {},
                        }
                        assert(entries@.take(j as int + 1).drop_last() =~= entries@.take(j as int));
                        j += 1;
                    }
                    assert(entries@.take(entries.len() as int) =~= entries@);
                }
            },
            _ => {},
        }
        assert(attrs@.take(i as int + 1).drop_last() =~= attrs@.take(i as int));
        i += 1;
    }
    assert(attrs@.take(attrs.len() as int) =~= attrs@);
    proof {
        lemma_with_attrs(Seq::empty(), attrs@);
    }
    found
}

impl Attribute {
    /// Whether this is a `cfg` guard whose predicate fails under `flags`.
    pub open spec fn is_failed_guard(self, flags: Seq<Seq<char>>) -> bool {
        self matches Attribute::Cfg { predicate } && !predicate.holds(flags)
    }
}

/// `attrs` with every `cfg_attr` replaced, in place, by the attributes it
/// holds where its predicate holds under `flags`, and by nothing where it
/// does not. What a `cfg_attr` holds is expanded in the same way.
pub open spec fn expanded(attrs: Seq<Attribute>, flags: Seq<Seq<char>>) -> Seq<Attribute>
    decreases attrs,
{
    if attrs.len() == 0 {
        Seq::empty()
    } else {
        let rest = expanded(attrs.drop_first(), flags);
        match attrs[0] {
            Attribute::CfgAttr { predicate, attrs: inner } => if predicate.holds(flags) {
                expanded(inner@, flags) + rest
            } else {
                rest
            },
            plain => seq![plain] + rest,
        }
    }
}

/// The number of attributes before the first failed `cfg` guard.
pub open spec fn cut_point(attrs: Seq<Attribute>, flags: Seq<Seq<char>>) -> nat
    decreases attrs.len(),
{
    if attrs.len() == 0 || attrs[0].is_failed_guard(flags) {
        0
    } else {
        1 + cut_point(attrs.drop_first(), flags)
    }
}

/// The attributes that are in force under `flags`: `attrs` expanded, up to
/// the first `cfg` guard that fails.
pub open spec fn configured(attrs: Seq<Attribute>, flags: Seq<Seq<char>>) -> Seq<Attribute> {
    let all = expanded(attrs, flags);
    all.take(cut_point(all, flags) as int)
}

/// Appends the expansion of `attrs` under `flags` to `out`.
fn expand_into(attrs: Vec<Attribute>, flags: &Vec<String>, out: &mut Vec<Attribute>)
    ensures
        final(out)@ == old(out)@ + expanded(attrs@, texts(flags@)),
    decreases attrs@,
{
    let ghost whole = attrs@;
    let ghost start = out@;
    let mut queue = attrs;
    let ghost mut done: int = 0;
    assert(whole.subrange(0, whole.len() as int) =~= whole);
    assert(start + expanded(queue@, texts(flags@)) =~= start + expanded(whole, texts(flags@)));
    while queue.len() > 0
        invariant
            whole == attrs@,
            0 <= done <= whole.len(),
            queue@ == whole.subrange(done, whole.len() as int),
            out@ + expanded(queue@, texts(flags@)) == start + expanded(whole, texts(flags@)),
        decreases queue.len(),
    {
        let ghost rest = expanded(queue@.drop_first(), texts(flags@));
        let ghost sofar = out@;
        let attr = queue.remove(0);
        assert(attr == whole[done]);
        assert(queue@ =~= whole.subrange(done + 1, whole.len() as int));
        match attr {
            Attribute::CfgAttr { predicate, attrs: inner } => {
                if predicate.eval(flags) {
                    assert(whole[done]->CfgAttr_attrs == inner);
                    expand_into(inner, flags, out);
                    assert(out@ + rest =~= sofar + (expanded(inner@, texts(flags@)) + rest));
                }
            },
            plain => {
                out.push(plain);
                assert(out@ + rest =~= sofar + (seq![plain] + rest));
            },
        }
        proof {
            done = done + 1;
        }
    }
    assert(out@ + expanded(queue@, texts(flags@)) =~= out@);
}

/// Filters the root attributes by the supplied flags: every `cfg_attr` gives
/// way to what it holds, or to nothing where its predicate fails, and the
/// first `cfg` guard that fails drops itself and all that follows.
pub fn pre_configure_attrs(attrs: Vec<Attribute>, flags: &Vec<String>) -> (kept: Vec<Attribute>)
    ensures
        kept@ == configured(attrs@, texts(flags@)),
{
    let mut kept: Vec<Attribute> = Vec::new();
    expand_into(attrs, flags, &mut kept);
    assert(kept@ =~= expanded(attrs@, texts(flags@)));
    let ghost all = kept@;
    let mut i: usize = 0;
    let mut cut = false;
    assert(all.subrange(0, all.len() as int) =~= all);
    while i < kept.len() && !cut
        invariant
            kept@ == all,
            i <= kept.len(),
            !cut ==> cut_point(all, texts(flags@)) == i + cut_point(
                all.subrange(i as int, all.len() as int),
                texts(flags@),
            ),
            cut ==> cut_point(all, texts(flags@)) == i,
        decreases kept.len() - i + (if cut { 0int } else { 1int }),
    {
        let ghost tail = all.subrange(i as int, all.len() as int);
        assert(tail[0] == all[i as int]);
        assert(tail.drop_first() =~= all.subrange(i as int + 1, all.len() as int));
        let failed = match &kept[i] {
            Attribute::Cfg { predicate } => !predicate.eval(flags),
            _ => false,
        };
        if failed {
            cut = true;
        } else {
            i += 1;
        }
    }
    kept.truncate(i);
    kept
}

} // verus!
