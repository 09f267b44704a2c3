//! What holds of the form whatever it is fed: laws of the state machine,
//! proved over `FormModel`.

use vstd::prelude::*;
use crate::model::{Field, FormModel};
use crate::update::Event;

verus! {

impl FormModel {
    /// An accepted candidate becomes the text of its field and raises the
    /// flag; a rejected one leaves the text as it was and lowers the flag.
    /// Either way no other field, flag or selection moves.
    pub proof fn law_set_field(self, field: Field, candidate: Seq<char>)
        ensures
            field.accepts(candidate) ==> self.set_field(field, candidate).text(field) == candidate
                && self.set_field(field, candidate).flag(field),
            !field.accepts(candidate) ==> self.set_field(field, candidate).text(field)
                == self.text(field) && !self.set_field(field, candidate).flag(field),
            forall|other: Field|
                other != field ==> self.set_field(field, candidate).text(other) == self.text(other)
                    && self.set_field(field, candidate).flag(other) == self.flag(other),
            self.set_field(field, candidate).matching_method == self.matching_method,
            self.set_field(field, candidate).theme == self.theme,
            self.set_field(field, candidate).result == self.result,
            self.set_field(field, candidate).error == self.error,
            self.set_field(field, candidate).transaction == self.transaction,
    {
    }

    /// However many candidates a field rejects in a row, every text of the
    /// form stays as it was; the one thing that moves is the field's flag,
    /// which is down after the first of them.
    pub proof fn law_rejected_updates_keep_text(self, field: Field, candidates: Seq<Seq<char>>)
        requires
            forall|i: int| 0 <= i < candidates.len() ==> !field.accepts(#[trigger] candidates[i]),
        ensures
            forall|any: Field| self.set_field_each(field, candidates).text(any) == self.text(any),
            self.set_field_each(field, candidates) == (if candidates.len() == 0 {
                self
            } else {
                self.with_flag(field, false)
            }),
        decreases candidates.len(),
    {
        if candidates.len() > 0 {
            let earlier = candidates.drop_last();
            assert forall|i: int| 0 <= i < earlier.len() implies !field.accepts(
                #[trigger] earlier[i],
            ) by {
                assert(earlier[i] == candidates[i]);
            }
            self.law_rejected_updates_keep_text(field, earlier);
            assert(!field.accepts(candidates.last()));
        }
    }

    /// Closing a batch when none is open changes nothing and records nothing.
    pub proof fn law_stray_end_update(self)
        requires
            self.transaction is Idle,
        ensures
            self.end_update() == self,
            self.call_on_end_update() is None,
    {
    }

    /// Opening a batch when one is open changes nothing and records nothing.
    pub proof fn law_repeated_begin_update(self)
        requires
            self.transaction is Open,
        ensures
            self.begin_update() == self,
            self.call_on_begin_update() is None,
    {
    }

    /// While a batch is open, the only event that reaches the engine's
    /// records is the one that closes it; asking for a calculation still
    /// goes out. The batch stays open until it is closed.
    pub proof fn law_open_batch_is_silent(self, event: Event)
        requires
            self.transaction is Open,
            !(event is EndUpdate),
        ensures
            self.handle(event).transaction is Open,
            !(event is Calculate) ==> self.call_on_handle(event) is None,
    {
    }

    /// A batch that is opened and closed leaves the form as it found it, and
    /// has its start and its end recorded.
    pub proof fn law_batch_round_trip(self)
        requires
            self.transaction is Idle,
        ensures
            self.begin_update().end_update() == self,
            self.call_on_begin_update() is Some,
            self.begin_update().call_on_end_update() is Some,
    {
    }

    /// At the start of a session every field holds nothing, which is known
    /// good.
    pub proof fn law_initial_holds_known_good()
        ensures
            FormModel::initial().holds_known_good(),
    {
        let m = FormModel::initial();
        assert forall|field: Field| #[trigger] m.text(field).len() == 0 && !(field.is_validated()
            && m.flag(field)) by {}
    }

    /// A form that agrees with `self` on every text and flag is known good
    /// when `self` is.
    proof fn lemma_same_fields_known_good(self, other: FormModel)
        requires
            self.holds_known_good(),
            forall|field: Field|
                other.text(field) == self.text(field) && other.flag(field) == self.flag(field),
        ensures
            other.holds_known_good(),
    {
        assert forall|field: Field|
            {
                &&& other.text(field).len() == 0 || field.accepts(#[trigger] other.text(field))
                &&& other.flag(field) ==> field.accepts(other.text(field))
            } by {
            assert(self.text(field).len() == 0 || field.accepts(self.text(field)));
            assert(other.text(field) == self.text(field) && other.flag(field) == self.flag(field));
        }
    }

    /// Offering a candidate to a field, whatever the candidate, never leaves
    /// a rejected text on show.
    pub proof fn law_set_field_keeps_known_good(self, field: Field, candidate: Seq<char>)
        requires
            self.holds_known_good(),
        ensures
            self.set_field(field, candidate).holds_known_good(),
    {
        let next = self.set_field(field, candidate);
        assert forall|any: Field|
            {
                &&& next.text(any).len() == 0 || any.accepts(#[trigger] next.text(any))
                &&& next.flag(any) ==> any.accepts(next.text(any))
            } by {
            assert(self.text(any).len() == 0 || any.accepts(self.text(any)));
            assert(self.flag(any) ==> any.accepts(self.text(any)));
        }
    }

    /// The operations that touch no field keep the form known good: the
    /// selections, the result and the error, the batch, and the answers of
    /// the engine.
    pub proof fn law_other_operations_keep_known_good(
        self,
        token: Seq<char>,
        text: Seq<char>,
        validation: Result<bool, Seq<char>>,
        calculation: Result<Seq<char>, Seq<char>>,
    )
        requires
            self.holds_known_good(),
        ensures
            self.set_matching_method(token).holds_known_good(),
            self.set_theme(token).holds_known_good(),
            self.set_result(text).holds_known_good(),
            self.set_error(text).holds_known_good(),
            self.begin_update().holds_known_good(),
            self.end_update().holds_known_good(),
            self.validation_finished(validation).holds_known_good(),
            self.calculation_finished(calculation).holds_known_good(),
    {
        self.lemma_same_fields_known_good(self.set_matching_method(token));
        self.lemma_same_fields_known_good(self.set_theme(token));
        self.lemma_same_fields_known_good(self.set_result(text));
        self.lemma_same_fields_known_good(self.set_error(text));
        self.lemma_same_fields_known_good(self.begin_update());
        self.lemma_same_fields_known_good(self.end_update());
        self.lemma_same_fields_known_good(self.validation_finished(validation));
        self.lemma_same_fields_known_good(self.calculation_finished(calculation));
    }

    /// No event can leave a rejected candidate on show.
    pub proof fn law_handle_keeps_known_good(self, event: Event)
        requires
            self.holds_known_good(),
        ensures
            self.handle(event).holds_known_good(),
    {
        match event {
            Event::FrequencyChanged(text) => {
                self.law_set_field_keeps_known_good(Field::Frequency, text);
            },
            Event::ZLoadRealChanged(text) => {
                self.law_set_field_keeps_known_good(Field::ZLoadReal, text);
            },
            Event::ZLoadImagChanged(text) => {
                self.law_set_field_keeps_known_good(Field::ZLoadImag, text);
            },
            Event::Z0Changed(text) => {
                self.law_set_field_keeps_known_good(Field::Z0, text);
            },
            _ => {
                self.lemma_same_fields_known_good(self.handle(event));
            },
        }
    }

    /// An answer of the engine moves the result and nothing else.
    pub proof fn law_answers_move_the_result_only(
        self,
        validation: Result<bool, Seq<char>>,
        calculation: Result<Seq<char>, Seq<char>>,
    )
        ensures
            self.validation_finished(validation) == self.set_result(
                self.validation_finished(validation).result,
            ),
            self.calculation_finished(calculation) == self.set_result(
                self.calculation_finished(calculation).result,
            ),
            validation == Ok::<bool, Seq<char>>(true) ==> self.validation_finished(validation)
                == self,
            calculation is Err ==> self.calculation_finished(calculation) == self,
    {
    }
}

} // verus!
