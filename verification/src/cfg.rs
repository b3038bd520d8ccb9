//! Conditional-compilation predicates and their evaluation under a flag list.

use vstd::prelude::*;
use crate::text::{contains_text, texts};

verus! {

/// A conditional-compilation predicate, as written inside a guard.
#[derive(Debug)]
pub enum CfgPredicate {
    /// Holds when the flag was supplied. A key-value flag is spelled as on the
    /// command line, for instance `feature="nightly"`.
    Flag { name: String },
    /// Holds when the inner predicate does not.
    Not { inner: Box<CfgPredicate> },
    /// Holds when every part does; an empty `All` holds.
    All { parts: Vec<CfgPredicate> },
    /// Holds when some part does; an empty `Any` does not hold.
    Any { parts: Vec<CfgPredicate> },
}

impl CfgPredicate {
    /// Whether the predicate holds under the supplied flags.
    pub open spec fn holds(self, flags: Seq<Seq<char>>) -> bool
        decreases self,
    {
        match self {
            CfgPredicate::Flag { name } => flags.contains(name@),
            CfgPredicate::Not { inner } => !inner.holds(flags),
            CfgPredicate::All { parts } => forall|i: int|
                0 <= i < parts.len() ==> (#[trigger] parts[i]).holds(flags),
            CfgPredicate::Any { parts } => exists|i: int|
                0 <= i < parts.len() && (#[trigger] parts[i]).holds(flags),
        }
    }

    /// Evaluates the predicate under the supplied flags.
    pub fn eval(&self, flags: &Vec<String>) -> (holds: bool)
        ensures
            holds == self.holds(texts(flags@)),
        decreases self,
    {
        match self {
            CfgPredicate::Flag { name } => contains_text(flags, name),
            CfgPredicate::Not { inner } => !inner.eval(flags),
            CfgPredicate::All { parts } => {
                let mut i: usize = 0;
                while i < parts.len()
                    invariant
                        i <= parts.len(),
                        self == (CfgPredicate::All { parts: *parts }),
                        forall|k: int| 0 <= k < i ==> (#[trigger] parts[k]).holds(texts(flags@)),
                    decreases parts.len() - i,
                {
                    proof {
                        vstd::std_specs::vec::axiom_vec_index_decreases(*parts, i as int);
                        assert(self->All_parts == *parts);
                    }
                    if !parts[i].eval(flags) {
                        assert(!parts[i as int].holds(texts(flags@)));
                        return false;
                    }
                    i += 1;
                }
                true
            },
            CfgPredicate::Any { parts } => {
                let mut i: usize = 0;
                while i < parts.len()
                    invariant
                        i <= parts.len(),
                        self == (CfgPredicate::Any { parts: *parts }),
                        forall|k: int| 0 <= k < i ==> !(#[trigger] parts[k]).holds(texts(flags@)),
                    decreases parts.len() - i,
                {
                    proof {
                        vstd::std_specs::vec::axiom_vec_index_decreases(*parts, i as int);
                        assert(self->Any_parts == *parts);
                    }
                    if parts[i].eval(flags) {
                        assert(parts[i as int].holds(texts(flags@)));
                        return true;
                    }
                    i += 1;
                }
                false
            },
        }
    }
}

} // verus!
