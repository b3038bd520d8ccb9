//! The scan report and the feature names it carries.

use vstd::prelude::*;
use crate::text::texts;

verus! {

/// The feature names a module declares, in a stable order.
#[derive(Debug)]
pub struct UsedRufs(Vec<String>);

/// What one scan reports.
#[derive(Debug)]
pub struct CheckInfo {
    /// The name of the compilation unit.
    pub crate_name: String,
    /// The features the unit declares.
    pub used_rufs: UsedRufs,
    /// The conditional-compilation flags the scan ran under, as given.
    pub cfg: Vec<String>,
}

/// The mathematical value of a [`CheckInfo`].
pub struct CheckInfoView {
    pub crate_name: Seq<char>,
    pub used_rufs: Seq<Seq<char>>,
    pub cfg: Seq<Seq<char>>,
}

impl View for UsedRufs {
    type V = Seq<Seq<char>>;

    closed spec fn view(&self) -> Seq<Seq<char>> {
        texts(self.0@)
    }
}

impl View for CheckInfo {
    type V = CheckInfoView;

    open spec fn view(&self) -> CheckInfoView {
        CheckInfoView {
            crate_name: self.crate_name@,
            used_rufs: self.used_rufs@,
            cfg: texts(self.cfg@),
        }
    }
}

impl UsedRufs {
    /// Wraps the given names, keeping their order.
    pub fn new(rufs: Vec<String>) -> (used: Self)
        ensures
            used@ == texts(rufs@),
    {
        UsedRufs(rufs)
    }

    /// The names, in order.
    pub fn names(&self) -> (names: &Vec<String>)
        ensures
            texts(names@) == self@,
    {
        &self.0
    }
}

} // verus!
