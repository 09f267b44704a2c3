//! The matching topologies that the form offers.

use vstd::prelude::*;
use crate::text::same_text;

verus! {

/// The selected matching topology.
#[derive(Debug, Clone, Copy, PartialEq, Eq)]
pub enum MatchingMethod {
    QuarterWave,
    Stub,
    L,
    Pi,
    T,
}

impl Default for MatchingMethod {
    fn default() -> (method: Self)
        ensures
            method == MatchingMethod::QuarterWave,
    {
        MatchingMethod::QuarterWave
    }
}

impl MatchingMethod {
    /// The token that names this topology, on input and towards the engine.
    pub open spec fn token(self) -> Seq<char> {
        match self {
            MatchingMethod::QuarterWave => "quarter_wave"@,
            MatchingMethod::Stub => "stub"@,
            MatchingMethod::L => "L"@,
            MatchingMethod::Pi => "Pi"@,
            MatchingMethod::T => "T"@,
        }
    }

    /// The topology that `token` names, if it names one.
    pub open spec fn of_token(token: Seq<char>) -> Option<MatchingMethod> {
        if token == "quarter_wave"@ {
            Some(MatchingMethod::QuarterWave)
        } else if token == "stub"@ {
            Some(MatchingMethod::Stub)
        } else if token == "L"@ {
            Some(MatchingMethod::L)
        } else if token == "Pi"@ {
            Some(MatchingMethod::Pi)
        } else if token == "T"@ {
            Some(MatchingMethod::T)
        } else {
            None
        }
    }

    pub fn name(&self) -> (name: &'static str)
        ensures
            name@ == self.token(),
    {
        match self {
            MatchingMethod::QuarterWave => "quarter_wave",
            MatchingMethod::Stub => "stub",
            MatchingMethod::L => "L",
            MatchingMethod::Pi => "Pi",
            MatchingMethod::T => "T",
        }
    }

    /// Recognises the five tokens, in exactly their spelling.
    pub fn from_token(token: &str) -> (method: Option<MatchingMethod>)
        ensures
            method == MatchingMethod::of_token(token@),
    {
        if same_text(token, "quarter_wave") {
            Some(MatchingMethod::QuarterWave)
        } else if same_text(token, "stub") {
            Some(MatchingMethod::Stub)
        } else if same_text(token, "L") {
            Some(MatchingMethod::L)
        } else if same_text(token, "Pi") {
            Some(MatchingMethod::Pi)
        } else if same_text(token, "T") {
            Some(MatchingMethod::T)
        } else {
            None
        }
    }

    /// Every topology is recognised by its own token.
    pub proof fn law_token_round_trip(self)
        ensures
            MatchingMethod::of_token(self.token()) == Some(self),
    {
        reveal_strlit("quarter_wave");
        reveal_strlit("stub");
        reveal_strlit("L");
        reveal_strlit("Pi");
        reveal_strlit("T");
        assert("quarter_wave"@.len() == 12 && "stub"@.len() == 4 && "Pi"@.len() == 2);
        assert("L"@.len() == 1 && "L"@[0] == 'L');
        assert("T"@.len() == 1 && "T"@[0] == 'T');
    }
}

} // verus!
