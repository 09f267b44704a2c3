//! The presentation mode of the form.

use vstd::prelude::*;
use crate::text::same_text;

verus! {

/// The selected presentation mode. It has no bearing on the calculation.
#[derive(Debug, Clone, Copy, PartialEq, Eq)]
pub enum Theme {
    Light,
    Dark,
}

impl Default for Theme {
    fn default() -> (theme: Self)
        ensures
            theme == Theme::Light,
    {
        Theme::Light
    }
}

impl Theme {
    /// The token that names this theme, on input and towards the engine.
    pub open spec fn token(self) -> Seq<char> {
        match self {
            Theme::Light => "light"@,
            Theme::Dark => "dark"@,
        }
    }

    /// The theme that `token` names, if it names one.
    pub open spec fn of_token(token: Seq<char>) -> Option<Theme> {
        if token == "light"@ {
            Some(Theme::Light)
        } else if token == "dark"@ {
            Some(Theme::Dark)
        } else {
            None
        }
    }

    pub fn name(&self) -> (name: &'static str)
        ensures
            name@ == self.token(),
    {
        match self {
            Theme::Light => "light",
            Theme::Dark => "dark",
        }
    }

    /// Recognises `light` and `dark`, in exactly that spelling.
    pub fn from_token(token: &str) -> (theme: Option<Theme>)
        ensures
            theme == Theme::of_token(token@),
    {
        if same_text(token, "light") {
            Some(Theme::Light)
        } else if same_text(token, "dark") {
            Some(Theme::Dark)
        } else {
            None
        }
    }

    /// Every theme is recognised by its own token.
    pub proof fn law_token_round_trip(self)
        ensures
            Theme::of_token(self.token()) == Some(self),
    {
        reveal_strlit("light");
        reveal_strlit("dark");
        assert("light"@.len() == 5 && "dark"@.len() == 4);
    }
}

} // verus!
