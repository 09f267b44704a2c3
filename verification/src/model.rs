//! The form as a mathematical state machine: its state, and what each
//! operation makes of it.
//!
//! `FormModel` is the view of `MicrowaveGUI`. Every operation of the form is
//! specified here twice over: the state that follows, and the engine call
//! that goes out with it.

use vstd::prelude::*;
use crate::engine::{begin_update_name, end_update_name, EngineCallView};
use crate::matching::MatchingMethod;
use crate::number::{classify, denotes_non_negative, denotes_positive, Sign};
use crate::theme::Theme;
use crate::validation::ValidationState;

verus! {

/// The editable text fields of the form.
#[derive(Debug, Clone, Copy, PartialEq, Eq)]
pub enum Field {
    /// Frequency in GHz; zero or more.
    Frequency,
    /// Characteristic impedance in ohms; more than zero.
    Z0,
    /// Magnitude of the load in ohms; more than zero.
    Load,
    /// Real part of the load impedance, kept as typed.
    ZLoadReal,
    /// Imaginary part of the load impedance, kept as typed.
    ZLoadImag,
}

/// Whether a batch of updates is under way.
#[derive(Debug, Clone, Copy, PartialEq, Eq)]
pub enum UpdateTransaction {
    Idle,
    Open,
}

impl Field {
    /// The name of the field in notifications to the engine.
    pub open spec fn label(self) -> Seq<char> {
        match self {
            Field::Frequency => "frequency"@,
            Field::Z0 => "z0"@,
            Field::Load => "load"@,
            Field::ZLoadReal => "z_load_real"@,
            Field::ZLoadImag => "z_load_imag"@,
        }
    }

    /// Whether the field has a validity flag and a constraint on its text.
    pub open spec fn is_validated(self) -> bool {
        self is Frequency || self is Z0 || self is Load
    }

    /// Whether the field takes `candidate` as its new text.
    pub open spec fn accepts(self, candidate: Seq<char>) -> bool {
        match self {
            Field::Frequency => denotes_non_negative(candidate),
            Field::Z0 => denotes_positive(candidate),
            Field::Load => denotes_positive(candidate),
            Field::ZLoadReal => true,
            Field::ZLoadImag => true,
        }
    }

    pub fn name(&self) -> (name: &'static str)
        ensures
            name@ == self.label(),
    {
        match self {
            Field::Frequency => "frequency",
            Field::Z0 => "z0",
            Field::Load => "load",
            Field::ZLoadReal => "z_load_real",
            Field::ZLoadImag => "z_load_imag",
        }
    }

    /// Decides whether the field takes `candidate` as its new text.
    pub fn admits(&self, candidate: &str) -> (accepted: bool)
        ensures
            accepted == self.accepts(candidate@),
    {
        match self {
            Field::Frequency => match classify(candidate) {
                Some(Sign::Zero) => true,
                Some(Sign::Positive) => true,
                _ => false,
            },
            Field::Z0 => match classify(candidate) {
                Some(Sign::Positive) => true,
                _ => false,
            },
            Field::Load => match classify(candidate) {
                Some(Sign::Positive) => true,
                _ => false,
            },
            Field::ZLoadReal => true,
            Field::ZLoadImag => true,
        }
    }
}

/// The state of the form.
pub struct FormModel {
    pub frequency: Seq<char>,
    pub z0: Seq<char>,
    pub load: Seq<char>,
    pub z_load_real: Seq<char>,
    pub z_load_imag: Seq<char>,
    pub matching_method: MatchingMethod,
    pub theme: Theme,
    /// The last result text; empty while there is none.
    pub result: Seq<char>,
    /// The last error message; empty while there is none.
    pub error: Seq<char>,
    pub state: ValidationState,
    pub transaction: UpdateTransaction,
}

/// The result text shown when the engine finds the parameters invalid.
pub open spec fn invalid_parameters_text() -> Seq<char> {
    "invalid parameters"@
}

/// What stands before the engine's failure text in the result.
pub open spec fn calculation_error_prefix() -> Seq<char> {
    "calculation error: "@
}

/// The name of the topology selection in notifications to the engine.
pub open spec fn matching_method_name() -> Seq<char> {
    "matching_method"@
}

impl FormModel {
    /// The form at the start of a session.
    pub open spec fn initial() -> FormModel {
        FormModel {
            frequency: seq![],
            z0: seq![],
            load: seq![],
            z_load_real: seq![],
            z_load_imag: seq![],
            matching_method: MatchingMethod::QuarterWave,
            theme: Theme::Light,
            result: seq![],
            error: seq![],
            state: ValidationState { frequency_valid: false, z0_valid: false, load_valid: false },
            transaction: UpdateTransaction::Idle,
        }
    }

    pub open spec fn text(self, field: Field) -> Seq<char> {
        match field {
            Field::Frequency => self.frequency,
            Field::Z0 => self.z0,
            Field::Load => self.load,
            Field::ZLoadReal => self.z_load_real,
            Field::ZLoadImag => self.z_load_imag,
        }
    }

    /// The validity flag of `field`; a field without a flag counts as valid.
    pub open spec fn flag(self, field: Field) -> bool {
        match field {
            Field::Frequency => self.state.frequency_valid,
            Field::Z0 => self.state.z0_valid,
            Field::Load => self.state.load_valid,
            Field::ZLoadReal => true,
            Field::ZLoadImag => true,
        }
    }

    pub open spec fn with_text(self, field: Field, text: Seq<char>) -> FormModel {
        match field {
            Field::Frequency => FormModel { frequency: text, ..self },
            Field::Z0 => FormModel { z0: text, ..self },
            Field::Load => FormModel { load: text, ..self },
            Field::ZLoadReal => FormModel { z_load_real: text, ..self },
            Field::ZLoadImag => FormModel { z_load_imag: text, ..self },
        }
    }

    pub open spec fn with_flag(self, field: Field, valid: bool) -> FormModel {
        match field {
            Field::Frequency => FormModel {
                state: ValidationState { frequency_valid: valid, ..self.state },
                ..self
            },
            Field::Z0 => FormModel {
                state: ValidationState { z0_valid: valid, ..self.state },
                ..self
            },
            Field::Load => FormModel {
                state: ValidationState { load_valid: valid, ..self.state },
                ..self
            },
            Field::ZLoadReal => self,
            Field::ZLoadImag => self,
        }
    }

    /// Every validated field holds the last candidate that it accepted, or
    /// nothing; a raised flag says that the text on show is that candidate.
    pub open spec fn holds_known_good(self) -> bool {
        forall|field: Field|
            {
                &&& self.text(field).len() == 0 || field.accepts(#[trigger] self.text(field))
                &&& self.flag(field) ==> field.accepts(self.text(field))
            }
    }

    /// Offers `candidate` to `field`. An accepted candidate becomes the text
    /// and raises the flag; a rejected one lowers the flag and leaves the text
    /// as it was.
    pub open spec fn set_field(self, field: Field, candidate: Seq<char>) -> FormModel {
        if field.accepts(candidate) {
            self.with_text(field, candidate).with_flag(field, true)
        } else {
            self.with_flag(field, false)
        }
    }

    /// The engine hears of an accepted candidate, unless a batch is open.
    pub open spec fn call_on_set_field(self, field: Field, candidate: Seq<char>) -> Option<
        EngineCallView,
    > {
        if field.accepts(candidate) && self.transaction is Idle {
            Some(EngineCallView::NotifyFieldChanged { field_name: field.label(), value: candidate })
        } else {
            None
        }
    }

    /// Offers the candidates to `field` one after the other.
    pub open spec fn set_field_each(self, field: Field, candidates: Seq<Seq<char>>) -> FormModel
        decreases candidates.len(),
    {
        if candidates.len() == 0 {
            self
        } else {
            self.set_field_each(field, candidates.drop_last()).set_field(field, candidates.last())
        }
    }

    pub open spec fn select_matching_method(self, method: MatchingMethod) -> FormModel {
        FormModel { matching_method: method, ..self }
    }

    pub open spec fn call_on_select_matching_method(self, method: MatchingMethod) -> Option<
        EngineCallView,
    > {
        if self.transaction is Idle {
            Some(
                EngineCallView::NotifyFieldChanged {
                    field_name: matching_method_name(),
                    value: method.token(),
                },
            )
        } else {
            None
        }
    }

    /// A token that names no topology changes nothing.
    pub open spec fn set_matching_method(self, token: Seq<char>) -> FormModel {
        match MatchingMethod::of_token(token) {
            Some(method) => self.select_matching_method(method),
            None => self,
        }
    }

    pub open spec fn call_on_set_matching_method(self, token: Seq<char>) -> Option<
        EngineCallView,
    > {
        match MatchingMethod::of_token(token) {
            Some(method) => self.call_on_select_matching_method(method),
            None => None,
        }
    }

    /// A token that names no theme changes nothing.
    pub open spec fn set_theme(self, token: Seq<char>) -> FormModel {
        match Theme::of_token(token) {
            Some(theme) => FormModel { theme, ..self },
            None => self,
        }
    }

    pub open spec fn call_on_set_theme(self, token: Seq<char>) -> Option<EngineCallView> {
        match Theme::of_token(token) {
            Some(theme) => if self.transaction is Idle {
                Some(EngineCallView::SetTheme { theme_name: theme.token() })
            } else {
                None
            },
            None => None,
        }
    }

    pub open spec fn set_result(self, text: Seq<char>) -> FormModel {
        FormModel { result: text, ..self }
    }

    pub open spec fn set_error(self, text: Seq<char>) -> FormModel {
        FormModel { error: text, ..self }
    }

    /// Opens a batch; with one open already, nothing changes.
    pub open spec fn begin_update(self) -> FormModel {
        FormModel { transaction: UpdateTransaction::Open, ..self }
    }

    pub open spec fn call_on_begin_update(self) -> Option<EngineCallView> {
        if self.transaction is Idle {
            Some(EngineCallView::RecordCall { name: begin_update_name() })
        } else {
            None
        }
    }

    /// Closes the batch; with none open, nothing changes.
    pub open spec fn end_update(self) -> FormModel {
        FormModel { transaction: UpdateTransaction::Idle, ..self }
    }

    pub open spec fn call_on_end_update(self) -> Option<EngineCallView> {
        if self.transaction is Open {
            Some(EngineCallView::RecordCall { name: end_update_name() })
        } else {
            None
        }
    }

    /// The request that opens the calculate sequence: the four texts as they
    /// stand and the token of the selected topology.
    pub open spec fn validation_request(self) -> EngineCallView {
        EngineCallView::ValidateParameters {
            frequency: self.frequency,
            z0: self.z0,
            z_load_real: self.z_load_real,
            z_load_imag: self.z_load_imag,
            matching_method: self.matching_method.token(),
        }
    }

    /// The form after the engine has answered the validation request, or has
    /// failed to.
    pub open spec fn validation_finished(self, outcome: Result<bool, Seq<char>>) -> FormModel {
        match outcome {
            Ok(true) => self,
            Ok(false) => self.set_result(invalid_parameters_text()),
            Err(failure) => self.set_result(calculation_error_prefix() + failure),
        }
    }

    /// The calculation is asked for only after a validation that succeeded.
    pub open spec fn call_on_validation_finished(self, outcome: Result<bool, Seq<char>>) -> Option<
        EngineCallView,
    > {
        if outcome == Ok::<bool, Seq<char>>(true) {
            Some(EngineCallView::Calculate)
        } else {
            None
        }
    }

    /// The form after the engine has answered the calculation, or has failed
    /// to: a failed calculation leaves the earlier result on show.
    pub open spec fn calculation_finished(
        self,
        outcome: Result<Seq<char>, Seq<char>>,
    ) -> FormModel {
        match outcome {
            Ok(text) => self.set_result(text),
            Err(_) => self,
        }
    }
}

} // verus!
