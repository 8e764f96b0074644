//! A source of fresh identifiers.

use vstd::prelude::*;
use crate::domain::value_objects::fizzy_id::FizzyId;

verus! {

/// Makes identifiers from version-7 UUIDs.
#[derive(Debug, Clone, Copy)]
pub struct FizzyIdGenerator;

impl FizzyIdGenerator {
    pub fn new() -> (r: Self) {
        FizzyIdGenerator
    }

    /// A fresh identifier; all that is known of it is that it is well
    /// formed.
    pub fn generate(&self) -> (r: FizzyId)
        ensures
            r.is_valid(),
    {
        FizzyId::generate()
    }
}

impl Default for FizzyIdGenerator {
    fn default() -> (r: Self) {
        FizzyIdGenerator
    }
}

} // verus!
