use vstd::prelude::*;

verus! {

/// The dirty bits that one input cycle can raise.  They are combined with
/// set union across the cycle and consumed exactly once when the cycle ends.
#[derive(Clone, Copy, PartialEq, Eq, Structural, Debug)]
pub struct NeedsUpdate {
    /// Everything must be re-derived: statuses, cache staleness, commands.
    pub all: bool,
    /// Any open diff view must be refreshed.
    pub diff: bool,
    /// The command/help listings must be re-enumerated.
    pub commands: bool,
}

impl NeedsUpdate {
    /// No bit raised.
    pub open spec fn spec_empty() -> NeedsUpdate {
        NeedsUpdate { all: false, diff: false, commands: false }
    }

    /// Every bit raised.
    pub open spec fn spec_all() -> NeedsUpdate {
        NeedsUpdate { all: true, diff: true, commands: true }
    }

    pub open spec fn spec_union(self, other: NeedsUpdate) -> NeedsUpdate {
        NeedsUpdate {
            all: self.all || other.all,
            diff: self.diff || other.diff,
            commands: self.commands || other.commands,
        }
    }

    /// `other` is contained in `self`: every bit raised in `other` is raised
    /// in `self` too.
    pub open spec fn spec_contains(self, other: NeedsUpdate) -> bool {
        &&& other.all ==> self.all
        &&& other.diff ==> self.diff
        &&& other.commands ==> self.commands
    }

    pub fn empty() -> (r: NeedsUpdate)
        ensures
            r == NeedsUpdate::spec_empty(),
    {
        NeedsUpdate { all: false, diff: false, commands: false }
    }

    pub fn all() -> (r: NeedsUpdate)
        ensures
            r == NeedsUpdate::spec_all(),
    {
        NeedsUpdate { all: true, diff: true, commands: true }
    }

    pub fn diff() -> (r: NeedsUpdate)
        ensures
            r == (NeedsUpdate { all: false, diff: true, commands: false }),
    {
        NeedsUpdate { all: false, diff: true, commands: false }
    }

    pub fn commands() -> (r: NeedsUpdate)
        ensures
            r == (NeedsUpdate { all: false, diff: false, commands: true }),
    {
        NeedsUpdate { all: false, diff: false, commands: true }
    }

    /// Raise every bit of `other` in `self`.
    pub fn insert(&mut self, other: NeedsUpdate)
        ensures
            *final(self) == old(self).spec_union(other),
    {
        self.all = self.all || other.all;
        self.diff = self.diff || other.diff;
        self.commands = self.commands || other.commands;
    }

    pub fn contains(&self, other: NeedsUpdate) -> (r: bool)
        ensures
            r == self.spec_contains(other),
    {
        (!other.all || self.all) && (!other.diff || self.diff) && (!other.commands
            || self.commands)
    }

    pub fn is_empty(&self) -> (r: bool)
        ensures
            r == (*self == NeedsUpdate::spec_empty()),
    {
        !self.all && !self.diff && !self.commands
    }
}

/// The union is commutative, associative and monotone: accumulating flags in
/// any order over a cycle yields the same consumed set, and a raised bit
/// never goes away before the cycle ends.
pub proof fn lemma_union_accumulates(a: NeedsUpdate, b: NeedsUpdate, c: NeedsUpdate)
    ensures
        a.spec_union(b) == b.spec_union(a),
        a.spec_union(b).spec_union(c) == a.spec_union(b.spec_union(c)),
        a.spec_union(b).spec_contains(a),
        a.spec_union(b).spec_contains(b),
{
}

} // verus!
