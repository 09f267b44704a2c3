//! The calls that the form asks its host to make on the calculation engine.
//!
//! The form never reaches the engine itself. Each operation hands back the
//! call, if any, that the host is to perform; for the two calls that answer
//! (`ValidateParameters` and `Calculate`) the host hands the outcome back to
//! the form.

use vstd::prelude::*;

verus! {

/// A call on the calculation engine, with the texts it carries.
#[derive(Debug, PartialEq, Eq)]
pub enum EngineCall {
    /// Tells the engine that a field now holds `value`. Best effort: the
    /// host drops a failure of this call.
    NotifyFieldChanged { field_name: String, value: String },
    /// Asks the engine whether the parameters fit together.
    ValidateParameters {
        frequency: String,
        z0: String,
        z_load_real: String,
        z_load_imag: String,
        matching_method: String,
    },
    /// Asks the engine for the result text.
    Calculate,
    /// Lets the engine mirror the selected theme.
    SetTheme { theme_name: String },
    /// Marks the start or the end of a batch in the engine's records.
    RecordCall { name: String },
}

/// What an `EngineCall` holds, as plain sequences of characters.
pub enum EngineCallView {
    NotifyFieldChanged { field_name: Seq<char>, value: Seq<char> },
    ValidateParameters {
        frequency: Seq<char>,
        z0: Seq<char>,
        z_load_real: Seq<char>,
        z_load_imag: Seq<char>,
        matching_method: Seq<char>,
    },
    Calculate,
    SetTheme { theme_name: Seq<char> },
    RecordCall { name: Seq<char> },
}

impl View for EngineCall {
    type V = EngineCallView;

    open spec fn view(&self) -> EngineCallView {
        match self {
            EngineCall::NotifyFieldChanged { field_name, value } => {
                EngineCallView::NotifyFieldChanged { field_name: field_name@, value: value@ }
            },
            EngineCall::ValidateParameters {
                frequency,
                z0,
                z_load_real,
                z_load_imag,
                matching_method,
            } => EngineCallView::ValidateParameters {
                frequency: frequency@,
                z0: z0@,
                z_load_real: z_load_real@,
                z_load_imag: z_load_imag@,
                matching_method: matching_method@,
            },
            EngineCall::Calculate => EngineCallView::Calculate,
            EngineCall::SetTheme { theme_name } => {
                EngineCallView::SetTheme { theme_name: theme_name@ }
            },
            EngineCall::RecordCall { name } => EngineCallView::RecordCall { name: name@ },
        }
    }
}

impl Clone for EngineCall {
    fn clone(&self) -> (copy: Self)
        ensures
            copy@ == self@,
    {
        match self {
            EngineCall::NotifyFieldChanged { field_name, value } => EngineCall::NotifyFieldChanged {
                field_name: field_name.clone(),
                value: value.clone(),
            },
            EngineCall::ValidateParameters {
                frequency,
                z0,
                z_load_real,
                z_load_imag,
                matching_method,
            } => EngineCall::ValidateParameters {
                frequency: frequency.clone(),
                z0: z0.clone(),
                z_load_real: z_load_real.clone(),
                z_load_imag: z_load_imag.clone(),
                matching_method: matching_method.clone(),
            },
            EngineCall::Calculate => EngineCall::Calculate,
            EngineCall::SetTheme { theme_name } => EngineCall::SetTheme {
                theme_name: theme_name.clone(),
            },
            EngineCall::RecordCall { name } => EngineCall::RecordCall { name: name.clone() },
        }
    }
}

/// The view of the call that an operation handed back, if it handed one back.
pub open spec fn issued(call: Option<EngineCall>) -> Option<EngineCallView> {
    match call {
        Some(c) => Some(c@),
        None => None,
    }
}

/// The name under which the start of a batch is recorded.
pub open spec fn begin_update_name() -> Seq<char> {
    "begin_update"@
}

/// The name under which the end of a batch is recorded.
pub open spec fn end_update_name() -> Seq<char> {
    "end_update"@
}

} // verus!
