//! The form itself: the texts and selections it holds, and the operations
//! that change them.
//!
//! Every operation that concerns the engine returns the call that the host
//! is to make, or `None` when there is nothing to tell.

use vstd::prelude::*;
use vstd::string::StringExecFns;
use crate::engine::{issued, EngineCall, EngineCallView};
use crate::matching::MatchingMethod;
use crate::model::{Field, FormModel, UpdateTransaction};
use crate::number::{denotes_non_negative, denotes_positive};
use crate::theme::Theme;
use crate::validation::ValidationState;

verus! {

/// The form of the impedance-matching calculator.
#[derive(Debug)]
pub struct MicrowaveGUI {
    pub frequency: String,
    pub z0: String,
    pub load: String,
    pub z_load_real: String,
    pub z_load_imag: String,
    pub matching_method: MatchingMethod,
    pub theme: Theme,
    pub result: String,
    pub error: String,
    pub state: ValidationState,
    pub transaction: UpdateTransaction,
}

impl View for MicrowaveGUI {
    type V = FormModel;

    open spec fn view(&self) -> FormModel {
        FormModel {
            frequency: self.frequency@,
            z0: self.z0@,
            load: self.load@,
            z_load_real: self.z_load_real@,
            z_load_imag: self.z_load_imag@,
            matching_method: self.matching_method,
            theme: self.theme,
            result: self.result@,
            error: self.error@,
            state: self.state,
            transaction: self.transaction,
        }
    }
}

/// The engine's answer to a validation request, as the model takes it.
pub open spec fn validation_outcome(outcome: Result<bool, String>) -> Result<bool, Seq<char>> {
    match outcome {
        Ok(valid) => Ok(valid),
        Err(failure) => Err(failure@),
    }
}

/// The engine's answer to a calculation, as the model takes it.
pub open spec fn calculation_outcome(outcome: Result<String, String>) -> Result<
    Seq<char>,
    Seq<char>,
> {
    match outcome {
        Ok(text) => Ok(text@),
        Err(failure) => Err(failure@),
    }
}

impl Clone for MicrowaveGUI {
    fn clone(&self) -> (copy: Self)
        ensures
            copy@ == self@,
    {
        MicrowaveGUI {
            frequency: self.frequency.clone(),
            z0: self.z0.clone(),
            load: self.load.clone(),
            z_load_real: self.z_load_real.clone(),
            z_load_imag: self.z_load_imag.clone(),
            matching_method: self.matching_method,
            theme: self.theme,
            result: self.result.clone(),
            error: self.error.clone(),
            state: self.state,
            transaction: self.transaction,
        }
    }
}

impl Default for MicrowaveGUI {
    fn default() -> (gui: Self)
        ensures
            gui@ == FormModel::initial(),
            gui@.holds_known_good(),
    {
        MicrowaveGUI::new()
    }
}

impl MicrowaveGUI {
    /// The form at the start of a session: every text empty, every flag
    /// down, the light theme, the quarter-wave transformer, no batch open.
    pub fn new() -> (gui: Self)
        ensures
            gui@ == FormModel::initial(),
            gui@.holds_known_good(),
    {
        proof {
            FormModel::law_initial_holds_known_good();
        }
        MicrowaveGUI {
            frequency: String::new(),
            z0: String::new(),
            load: String::new(),
            z_load_real: String::new(),
            z_load_imag: String::new(),
            matching_method: MatchingMethod::QuarterWave,
            theme: Theme::Light,
            result: String::new(),
            error: String::new(),
            state: ValidationState { frequency_valid: false, z0_valid: false, load_valid: false },
            transaction: UpdateTransaction::Idle,
        }
    }

    /// The notification of a changed field, unless a batch is open.
    fn notice(&self, field_name: &str, value: &str) -> (call: Option<EngineCall>)
        ensures
            issued(call) == (if self.transaction is Idle {
                Some(EngineCallView::NotifyFieldChanged { field_name: field_name@, value: value@ })
            } else {
                None
            }),
    {
        match self.transaction {
            UpdateTransaction::Idle => Some(
                EngineCall::NotifyFieldChanged {
                    field_name: field_name.to_string(),
                    value: value.to_string(),
                },
            ),
            UpdateTransaction::Open => None,
        }
    }

    /// Offers `candidate` to `field`.
    ///
    /// An accepted candidate becomes the text of the field and raises its
    /// flag; outside a batch the engine is told. A rejected candidate lowers
    /// the flag and leaves the text as it was.
    pub fn set_field(&mut self, field: Field, candidate: String) -> (call: Option<EngineCall>)
        ensures
            final(self)@ == old(self)@.set_field(field, candidate@),
            issued(call) == old(self)@.call_on_set_field(field, candidate@),
    {
        if field.admits(candidate.as_str()) {
            let call = self.notice(field.name(), candidate.as_str());
            match field {
                Field::Frequency => {
                    self.frequency = candidate;
                    self.state.frequency_valid = true;
                },
                Field::Z0 => {
                    self.z0 = candidate;
                    self.state.z0_valid = true;
                },
                Field::Load => {
                    self.load = candidate;
                    self.state.load_valid = true;
                },
                Field::ZLoadReal => {
                    self.z_load_real = candidate;
                },
                Field::ZLoadImag => {
                    self.z_load_imag = candidate;
                },
            }
            call
        } else {
            match field {
                Field::Frequency => {
                    self.state.frequency_valid = false;
                },
                Field::Z0 => {
                    self.state.z0_valid = false;
                },
                Field::Load => {
                    self.state.load_valid = false;
                },
                Field::ZLoadReal => {},
                Field::ZLoadImag => {},
            }
            None
        }
    }

    /// Offers `candidate` as the frequency: accepted when it is the literal
    /// of a number that is zero or more.
    pub fn set_frequency(&mut self, candidate: String) -> (call: Option<EngineCall>)
        ensures
            final(self)@ == old(self)@.set_field(Field::Frequency, candidate@),
            issued(call) == old(self)@.call_on_set_field(Field::Frequency, candidate@),
            denotes_non_negative(candidate@) ==> final(self).frequency@ == candidate@
                && final(self).state.frequency_valid,
            !denotes_non_negative(candidate@) ==> final(self).frequency@ == old(self).frequency@
                && !final(self).state.frequency_valid,
    {
        self.set_field(Field::Frequency, candidate)
    }

    /// Offers `candidate` as the characteristic impedance: accepted when it
    /// is the literal of a number that is more than zero.
    pub fn set_z0(&mut self, candidate: String) -> (call: Option<EngineCall>)
        ensures
            final(self)@ == old(self)@.set_field(Field::Z0, candidate@),
            issued(call) == old(self)@.call_on_set_field(Field::Z0, candidate@),
            denotes_positive(candidate@) ==> final(self).z0@ == candidate@
                && final(self).state.z0_valid,
            !denotes_positive(candidate@) ==> final(self).z0@ == old(self).z0@
                && !final(self).state.z0_valid,
    {
        self.set_field(Field::Z0, candidate)
    }

    /// Offers `candidate` as the load: accepted when it is the literal of a
    /// number that is more than zero.
    pub fn set_load(&mut self, candidate: String) -> (call: Option<EngineCall>)
        ensures
            final(self)@ == old(self)@.set_field(Field::Load, candidate@),
            issued(call) == old(self)@.call_on_set_field(Field::Load, candidate@),
            denotes_positive(candidate@) ==> final(self).load@ == candidate@
                && final(self).state.load_valid,
            !denotes_positive(candidate@) ==> final(self).load@ == old(self).load@
                && !final(self).state.load_valid,
    {
        self.set_field(Field::Load, candidate)
    }

    /// Selects `method`; outside a batch the engine is told.
    pub fn select_matching_method(&mut self, method: MatchingMethod) -> (call: Option<EngineCall>)
        ensures
            final(self)@ == old(self)@.select_matching_method(method),
            issued(call) == old(self)@.call_on_select_matching_method(method),
    {
        self.matching_method = method;
        self.notice("matching_method", method.name())
    }

    /// Selects the topology that `token` names. A token that names none is
    /// passed over: the selection stays, and nothing records the attempt.
    pub fn set_matching_method(&mut self, token: &str) -> (call: Option<EngineCall>)
        ensures
            final(self)@ == old(self)@.set_matching_method(token@),
            issued(call) == old(self)@.call_on_set_matching_method(token@),
            MatchingMethod::of_token(token@) is None ==> *final(self) == *old(self) && call is None,
    {
        match MatchingMethod::from_token(token) {
            Some(method) => self.select_matching_method(method),
            None => None,
        }
    }

    /// Selects the theme that `token` names; outside a batch the engine is
    /// told. A token that names none is passed over.
    pub fn set_theme(&mut self, token: &str) -> (call: Option<EngineCall>)
        ensures
            final(self)@ == old(self)@.set_theme(token@),
            issued(call) == old(self)@.call_on_set_theme(token@),
            Theme::of_token(token@) is None ==> *final(self) == *old(self) && call is None,
    {
        match Theme::from_token(token) {
            Some(theme) => {
                self.theme = theme;
                match self.transaction {
                    UpdateTransaction::Idle => Some(
                        EngineCall::SetTheme { theme_name: theme.name().to_string() },
                    ),
                    UpdateTransaction::Open => None,
                }
            },
            None => None,
        }
    }

    pub fn set_result(&mut self, result: String)
        ensures
            final(self)@ == old(self)@.set_result(result@),
    {
        self.result = result;
    }

    pub fn clear_result(&mut self)
        ensures
            final(self)@ == old(self)@.set_result(seq![]),
    {
        self.result = String::new();
    }

    pub fn set_error(&mut self, error: String)
        ensures
            final(self)@ == old(self)@.set_error(error@),
    {
        self.error = error;
    }

    pub fn clear_error(&mut self)
        ensures
            final(self)@ == old(self)@.set_error(seq![]),
    {
        self.error = String::new();
    }

    /// Opens a batch and has its start recorded. With a batch open already
    /// the call does nothing.
    pub fn begin_update(&mut self) -> (call: Option<EngineCall>)
        ensures
            final(self)@ == old(self)@.begin_update(),
            issued(call) == old(self)@.call_on_begin_update(),
            old(self).transaction is Open ==> *final(self) == *old(self) && call is None,
    {
        match self.transaction {
            UpdateTransaction::Idle => {
                self.transaction = UpdateTransaction::Open;
                Some(EngineCall::RecordCall { name: "begin_update".to_string() })
            },
            UpdateTransaction::Open => None,
        }
    }

    /// Closes the batch and has its end recorded. With no batch open the
    /// call does nothing.
    pub fn end_update(&mut self) -> (call: Option<EngineCall>)
        ensures
            final(self)@ == old(self)@.end_update(),
            issued(call) == old(self)@.call_on_end_update(),
            old(self).transaction is Idle ==> *final(self) == *old(self) && call is None,
    {
        match self.transaction {
            UpdateTransaction::Open => {
                self.transaction = UpdateTransaction::Idle;
                Some(EngineCall::RecordCall { name: "end_update".to_string() })
            },
            UpdateTransaction::Idle => None,
        }
    }

    /// Opens the calculate sequence: the request by which the engine checks
    /// the parameters as they stand. The host answers with
    /// `validation_finished`.
    pub fn validate_and_calculate(&self) -> (call: EngineCall)
        ensures
            call@ == self@.validation_request(),
    {
        EngineCall::ValidateParameters {
            frequency: self.frequency.clone(),
            z0: self.z0.clone(),
            z_load_real: self.z_load_real.clone(),
            z_load_imag: self.z_load_imag.clone(),
            matching_method: self.matching_method.name().to_string(),
        }
    }

    /// Takes the outcome of the validation request.
    ///
    /// Valid parameters: the form stays as it is and the calculation is
    /// asked for. Invalid parameters: the result becomes the fixed message.
    /// A failed request: the result becomes the failure text behind its
    /// prefix. In the last two cases no calculation is asked for.
    pub fn validation_finished(&mut self, outcome: Result<bool, String>) -> (call: Option<
        EngineCall,
    >)
        ensures
            final(self)@ == old(self)@.validation_finished(validation_outcome(outcome)),
            issued(call) == old(self)@.call_on_validation_finished(validation_outcome(outcome)),
            call is Some <==> outcome == Ok::<bool, String>(true),
    {
        match outcome {
            Ok(true) => Some(EngineCall::Calculate),
            Ok(false) => {
                self.result = "invalid parameters".to_string();
                None
            },
            Err(failure) => {
                self.result = "calculation error: ".to_string().concat(failure.as_str());
                None
            },
        }
    }

    /// Takes the outcome of the calculation: a result text replaces the one
    /// on show, a failure leaves it there.
    pub fn calculation_finished(&mut self, outcome: Result<String, String>)
        ensures
            final(self)@ == old(self)@.calculation_finished(calculation_outcome(outcome)),
            outcome is Err ==> *final(self) == *old(self),
    {
        match outcome {
            Ok(text) => {
                self.result = text;
            },
            Err(_) => {},
        }
    }
}

} // verus!
