//! Per-field validity flags.

use vstd::prelude::*;

verus! {

/// Whether the last candidate offered to each validated field was accepted.
#[derive(Clone, Copy, Debug, PartialEq, Eq)]
pub struct ValidationState {
    pub frequency_valid: bool,
    pub z0_valid: bool,
    pub load_valid: bool,
}

impl ValidationState {
    /// The aggregate validity: all three flags at once.
    pub open spec fn all_valid(&self) -> bool {
        self.frequency_valid && self.z0_valid && self.load_valid
    }

    /// True exactly when all three flags are true. The aggregate is computed
    /// from the flags on every call and stored nowhere.
    #[verifier::when_used_as_spec(all_valid)]
    pub fn is_valid(&self) -> (valid: bool)
        ensures
            valid == (self.frequency_valid && self.z0_valid && self.load_valid),
            valid == self.all_valid(),
    {
        self.frequency_valid && self.z0_valid && self.load_valid
    }
}

impl Default for ValidationState {
    /// No field has been accepted yet.
    fn default() -> (state: Self)
        ensures
            !state.frequency_valid,
            !state.z0_valid,
            !state.load_valid,
    {
        ValidationState { frequency_valid: false, z0_valid: false, load_valid: false }
    }
}

} // verus!
