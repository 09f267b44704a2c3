//! The dispatcher: what each event from the render surface does to the form.

use vstd::prelude::*;
use crate::engine::{issued, EngineCall, EngineCallView};
use crate::gui::MicrowaveGUI;
use crate::matching::MatchingMethod;
use crate::model::{Field, FormModel};

verus! {

/// An event from the render surface.
#[derive(Debug)]
pub enum Message {
    FrequencyChanged(String),
    ZLoadRealChanged(String),
    ZLoadImagChanged(String),
    Z0Changed(String),
    MatchingMethodChanged(MatchingMethod),
    ThemeChanged(String),
    Calculate,
    BeginUpdate,
    EndUpdate,
}

/// What a `Message` holds, as plain sequences of characters.
pub enum Event {
    FrequencyChanged(Seq<char>),
    ZLoadRealChanged(Seq<char>),
    ZLoadImagChanged(Seq<char>),
    Z0Changed(Seq<char>),
    MatchingMethodChanged(MatchingMethod),
    ThemeChanged(Seq<char>),
    Calculate,
    BeginUpdate,
    EndUpdate,
}

impl View for Message {
    type V = Event;

    open spec fn view(&self) -> Event {
        match self {
            Message::FrequencyChanged(text) => Event::FrequencyChanged(text@),
            Message::ZLoadRealChanged(text) => Event::ZLoadRealChanged(text@),
            Message::ZLoadImagChanged(text) => Event::ZLoadImagChanged(text@),
            Message::Z0Changed(text) => Event::Z0Changed(text@),
            Message::MatchingMethodChanged(method) => Event::MatchingMethodChanged(*method),
            Message::ThemeChanged(token) => Event::ThemeChanged(token@),
            Message::Calculate => Event::Calculate,
            Message::BeginUpdate => Event::BeginUpdate,
            Message::EndUpdate => Event::EndUpdate,
        }
    }
}

impl Clone for Message {
    fn clone(&self) -> (copy: Self)
        ensures
            copy@ == self@,
    {
        match self {
            Message::FrequencyChanged(text) => Message::FrequencyChanged(text.clone()),
            Message::ZLoadRealChanged(text) => Message::ZLoadRealChanged(text.clone()),
            Message::ZLoadImagChanged(text) => Message::ZLoadImagChanged(text.clone()),
            Message::Z0Changed(text) => Message::Z0Changed(text.clone()),
            Message::MatchingMethodChanged(method) => Message::MatchingMethodChanged(*method),
            Message::ThemeChanged(token) => Message::ThemeChanged(token.clone()),
            Message::Calculate => Message::Calculate,
            Message::BeginUpdate => Message::BeginUpdate,
            Message::EndUpdate => Message::EndUpdate,
        }
    }
}

impl FormModel {
    /// The form after `event`. Asking for a calculation changes nothing by
    /// itself: the form moves on when the engine has answered.
    pub open spec fn handle(self, event: Event) -> FormModel {
        match event {
            Event::FrequencyChanged(text) => self.set_field(Field::Frequency, text),
            Event::ZLoadRealChanged(text) => self.set_field(Field::ZLoadReal, text),
            Event::ZLoadImagChanged(text) => self.set_field(Field::ZLoadImag, text),
            Event::Z0Changed(text) => self.set_field(Field::Z0, text),
            Event::MatchingMethodChanged(method) => self.select_matching_method(method),
            Event::ThemeChanged(token) => self.set_theme(token),
            Event::Calculate => self,
            Event::BeginUpdate => self.begin_update(),
            Event::EndUpdate => self.end_update(),
        }
    }

    /// The engine call that goes out with `event`. Only `Calculate` asks the
    /// engine to validate, and it does so inside a batch as well as outside.
    pub open spec fn call_on_handle(self, event: Event) -> Option<EngineCallView> {
        match event {
            Event::FrequencyChanged(text) => self.call_on_set_field(Field::Frequency, text),
            Event::ZLoadRealChanged(text) => self.call_on_set_field(Field::ZLoadReal, text),
            Event::ZLoadImagChanged(text) => self.call_on_set_field(Field::ZLoadImag, text),
            Event::Z0Changed(text) => self.call_on_set_field(Field::Z0, text),
            Event::MatchingMethodChanged(method) => self.call_on_select_matching_method(method),
            Event::ThemeChanged(token) => self.call_on_set_theme(token),
            Event::Calculate => Some(self.validation_request()),
            Event::BeginUpdate => self.call_on_begin_update(),
            Event::EndUpdate => self.call_on_end_update(),
        }
    }
}

impl MicrowaveGUI {
    /// Applies `message` to the form and returns the engine call that goes
    /// out with it.
    pub fn update(&mut self, message: Message) -> (call: Option<EngineCall>)
        ensures
            final(self)@ == old(self)@.handle(message@),
            issued(call) == old(self)@.call_on_handle(message@),
    {
        match message {
            Message::FrequencyChanged(text) => self.set_field(Field::Frequency, text),
            Message::ZLoadRealChanged(text) => self.set_field(Field::ZLoadReal, text),
            Message::ZLoadImagChanged(text) => self.set_field(Field::ZLoadImag, text),
            Message::Z0Changed(text) => self.set_field(Field::Z0, text),
            Message::MatchingMethodChanged(method) => self.select_matching_method(method),
            Message::ThemeChanged(token) => self.set_theme(token.as_str()),
            Message::Calculate => Some(self.validate_and_calculate()),
            Message::BeginUpdate => self.begin_update(),
            Message::EndUpdate => self.end_update(),
        }
    }
}

} // verus!
