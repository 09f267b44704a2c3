//! State and validation layer of an impedance-matching calculator form.
//!
//! The form collects a frequency, a characteristic impedance, a load and a
//! matching topology, and stands between the render surface, which shows it
//! and sends it events, and the calculation engine, which validates the
//! parameters as a whole and computes the result.
//!
//! The form reaches neither of the two by itself. An event comes in through
//! [`MicrowaveGUI::update`] or one of the setters; what comes back is the
//! [`EngineCall`] that the host is to make, if there is one. The two calls
//! that answer are fed back through [`MicrowaveGUI::validation_finished`] and
//! [`MicrowaveGUI::calculation_finished`]. One event is dealt with, answers
//! included, before the next is taken.
//!
//! - [`number`]: the grammar of decimal literals and the sign of the number a
//!   literal denotes.
//! - [`validation`]: the validity flags.
//! - [`theme`], [`matching`]: the two selections and their tokens.
//! - [`engine`]: the calls on the engine.
//! - [`model`]: the form as a state machine over plain sequences.
//! - [`gui`]: the form itself.
//! - [`update`]: the events and their dispatch.
//! - [`laws`]: what holds of the state machine whatever it is fed.

pub mod engine;
pub mod gui;
pub mod laws;
pub mod matching;
pub mod model;
pub mod number;
pub mod text;
pub mod theme;
pub mod update;
pub mod validation;

pub use engine::EngineCall;
pub use gui::MicrowaveGUI;
pub use matching::MatchingMethod;
pub use model::{Field, UpdateTransaction};
pub use number::Sign;
pub use theme::Theme;
pub use update::Message;
pub use validation::ValidationState;
