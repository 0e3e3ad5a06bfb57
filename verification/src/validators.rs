//! The validators, each built from its schema settings, and the state that a validation
//! run carries.

use vstd::prelude::*;

pub mod bool;
pub mod literal;
pub mod url;

verus! {

/// How exactly an input matched the type it was validated as, from loosest to tightest.
#[derive(Debug, Clone, Copy, PartialEq, Eq, Structural)]
pub enum Exactness {
    Lax,
    Strict,
    Exact,
}

/// The rank of an exactness in its order: `Lax < Strict < Exact`.
pub open spec fn exactness_rank(e: Exactness) -> int {
    match e {
        Exactness::Lax => 0,
        Exactness::Strict => 1,
        Exactness::Exact => 2,
    }
}

/// The exactness after lowering it to at most `floor`, where one is tracked.
pub open spec fn floored(exactness: Option<Exactness>, floor: Exactness) -> Option<Exactness> {
    match exactness {
        Some(e) => Some(
            if exactness_rank(floor) < exactness_rank(e) {
                floor
            } else {
                e
            },
        ),
        None => None,
    }
}

/// The strictness in force: the state's, where it sets one, else the validator's.
pub open spec fn strict_or(state_strict: Option<bool>, own: bool) -> bool {
    match state_strict {
        Some(s) => s,
        None => own,
    }
}

/// What a validation run carries from validator to validator: the strictness it imposes,
/// if any, and how exactly the input has matched so far, where that is tracked.
#[derive(Debug, Clone, Copy, PartialEq, Eq, Structural)]
pub struct ValidationState {
    pub strict: Option<bool>,
    pub exactness: Option<Exactness>,
}

impl ValidationState {
    pub fn new(strict: Option<bool>, exactness: Option<Exactness>) -> (r: Self)
        ensures
            r.strict == strict,
            r.exactness == exactness,
    {
        ValidationState { strict, exactness }
    }

    /// The strictness in force for a validator whose own setting is `default`.
    pub fn strict_or(&self, default: bool) -> (r: bool)
        ensures
            r == strict_or(self.strict, default),
    {
        match self.strict {
            Some(s) => s,
            None => default,
        }
    }

    /// Lowers the tracked exactness to at most `floor`.
    pub fn floor_exactness(&mut self, floor: Exactness)
        ensures
            final(self).strict == old(self).strict,
            final(self).exactness == floored(old(self).exactness, floor),
    {
        if let Some(e) = self.exactness {
            let lower = match (floor, e) {
                (Exactness::Lax, _) => true,
                (Exactness::Strict, Exactness::Exact) => true,
                _ => false,
            };
            if lower {
                self.exactness = Some(floor);
            }
        }
    }
}

} // verus!
