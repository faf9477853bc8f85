//! The rules a user can switch on and off, and the set that holds them.
//!
//! The set is a hash map from a number for each rule to the rule's entry. It
//! is keyed by the number rather than by the rule itself, because what is
//! known of the map rests on how its keys hash and compare, and that is known
//! of integers.
use crate::idmap::{fx_get, fx_insert};
use rustc_hash::FxHashMap;
use vstd::prelude::*;

verus! {

/// A rule that changes how a drag is turned into a transform.
#[derive(Clone, Copy, Debug, PartialEq, Eq, Hash, Structural)]
pub enum ConstraintType {
    SnapToGrid,
    SnapToObject,
    MaintainAspectRatio,
    LockRotation,
    LockScale,
}

/// One rule and whether it is switched on.
#[derive(Clone, Copy, Debug, PartialEq, Eq, Structural)]
pub struct Constraint {
    pub constraint_type: ConstraintType,
    pub enabled: bool,
}

impl ConstraintType {
    /// The number under which the rule is filed; no two rules share one.
    pub open spec fn code(self) -> u32 {
        match self {
            ConstraintType::SnapToGrid => 0,
            ConstraintType::SnapToObject => 1,
            ConstraintType::MaintainAspectRatio => 2,
            ConstraintType::LockRotation => 3,
            ConstraintType::LockScale => 4,
        }
    }

    /// The number under which the rule is filed.
    pub fn key(self) -> (r: u32)
        ensures
            r == self.code(),
    {
        match self {
            ConstraintType::SnapToGrid => 0,
            ConstraintType::SnapToObject => 1,
            ConstraintType::MaintainAspectRatio => 2,
            ConstraintType::LockRotation => 3,
            ConstraintType::LockScale => 4,
        }
    }
}

/// Whether the entry filed for `kind` is switched on; a rule without an entry
/// is off.
pub open spec fn enabled_in(entries: Map<u32, Constraint>, kind: ConstraintType) -> bool {
    entries.contains_key(kind.code()) && entries[kind.code()].enabled
}

/// The rules with their states. Every rule is off until it is switched on.
#[derive(Clone, Debug)]
pub struct ConstraintSet {
    entries: FxHashMap<u32, Constraint>,
}

impl View for ConstraintSet {
    type V = Map<ConstraintType, bool>;

    /// The state of every rule.
    closed spec fn view(&self) -> Map<ConstraintType, bool> {
        Map::total(|kind: ConstraintType| enabled_in(self.entries@, kind))
    }
}

impl ConstraintSet {
    /// The set with an entry for each rule, all switched off.
    pub fn new() -> (set: ConstraintSet)
        ensures
            set@ == Map::total(|kind: ConstraintType| false),
    {
        let mut set = ConstraintSet { entries: FxHashMap::default() };
        set.set_enabled(ConstraintType::SnapToGrid, false);
        set.set_enabled(ConstraintType::SnapToObject, false);
        set.set_enabled(ConstraintType::MaintainAspectRatio, false);
        set.set_enabled(ConstraintType::LockRotation, false);
        set.set_enabled(ConstraintType::LockScale, false);
        assert(set@ =~= Map::total(|kind: ConstraintType| false));
        set
    }

    /// Whether the rule is switched on.
    pub fn is_enabled(&self, kind: ConstraintType) -> (r: bool)
        ensures
            r == self@[kind],
    {
        match fx_get(&self.entries, kind.key()) {
            Some(entry) => entry.enabled,
            None => false,
        }
    }

    /// Switches the rule on or off; the other rules stay as they are.
    pub fn set_enabled(&mut self, kind: ConstraintType, enabled: bool)
        ensures
            final(self)@ == old(self)@.insert(kind, enabled),
    {
        fx_insert(&mut self.entries, kind.key(), Constraint { constraint_type: kind, enabled });
        assert(self@ =~= old(self)@.insert(kind, enabled));
    }
}

} // verus!
