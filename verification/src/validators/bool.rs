//! The `bool` validator: its settings and the strictness it validates with.

use vstd::prelude::*;

use crate::validators::strict_or;

verus! {

/// The `bool` validator. Its view is whether it is strict.
#[derive(Debug, Clone)]
pub struct BoolValidator {
    strict: bool,
}

impl View for BoolValidator {
    type V = bool;

    closed spec fn view(&self) -> bool {
        self.strict
    }
}

impl BoolValidator {
    /// The type name of the schema.
    pub fn expected_type() -> (r: &'static str)
        ensures
            r@ == "bool"@,
    {
        "bool"
    }

    /// Builds the validator; `strict` is what the schema and config decide.
    pub fn build(strict: bool) -> (r: BoolValidator)
        ensures
            r@ == strict,
    {
        BoolValidator { strict }
    }

    /// The validator's name, its type name.
    pub fn get_name(&self) -> (r: &'static str)
        ensures
            r@ == "bool"@,
    {
        Self::expected_type()
    }

    /// The strictness that an input is validated with: the validation state's, where it sets
    /// one, else the validator's own.
    pub fn strict_or(&self, state_strict: Option<bool>) -> (r: bool)
        ensures
            r == strict_or(state_strict, self@),
    {
        match state_strict {
            Some(s) => s,
            None => self.strict,
        }
    }
}

} // verus!
