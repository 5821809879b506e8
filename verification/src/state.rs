//! The game state: the snapshot that a session keeps of the player's world.
//!
//! The state holds the offset between the server's clock and the local one,
//! and the parts of the game world that the server has sent so far. A part
//! that has never been sent is absent. A part that is there holds its
//! numbers in the order that `model` lays down.

use vstd::prelude::*;
use crate::model::{
    lemma_fields, lemma_model_order, Field, Model, ITEM_WIDTH, MODEL_COUNT,
};

verus! {

/// What a game state holds.
pub struct StateView {
    /// Server time minus local time, in seconds, as of the last response
    /// that carried the server's time.
    pub drift: i64,
    /// The parts that are there, each with its numbers.
    pub parts: Map<Model, Seq<i64>>,
}

/// Whether `record` has the shape of the part `model`: one number for each
/// field of a record, whole items for a list.
pub open spec fn valid_part(model: Model, record: Seq<i64>) -> bool {
    if model.is_list() {
        record.len() % (ITEM_WIDTH as nat) == 0
    } else {
        record.len() == model.fields().len()
    }
}

/// Whether every part that is there has the shape of its kind.
pub open spec fn valid_state(state: StateView) -> bool {
    forall|m: Model| #[trigger] state.parts.dom().contains(m) ==> valid_part(m, state.parts[m])
}

/// The numbers of the part `model`, if that part is there.
pub open spec fn part_of(state: StateView, model: Model) -> Option<Seq<i64>> {
    if state.parts.dom().contains(model) {
        Some(state.parts[model])
    } else {
        None
    }
}

/// The value of `field`, if the part that it belongs to is there.
pub open spec fn field_of(state: StateView, field: Field) -> Option<i64> {
    match part_of(state, field.model()) {
        Some(record) => Some(record[field.index() as int]),
        None => None,
    }
}

/// The state before anything has been received.
pub open spec fn empty_state() -> StateView {
    StateView { drift: 0, parts: Map::<Model, Seq<i64>>::empty() }
}

/// The numbers that a list of optional records holds at `model`'s place.
pub open spec fn slot_view(records: Seq<Option<Vec<i64>>>, model: Model) -> Option<Seq<i64>> {
    if model.index() < records.len() {
        match records[model.index() as int] {
            Some(record) => Some(record@),
            None => None,
        }
    } else {
        None
    }
}

/// The parts that a list of optional records holds, one place per part.
pub open spec fn parts_view(records: Seq<Option<Vec<i64>>>) -> Map<Model, Seq<i64>> {
    Map::new(
        |m: Model| slot_view(records, m) is Some,
        |m: Model| slot_view(records, m)->0,
    )
}

/// The snapshot of the player's world.
#[derive(Debug, PartialEq, Eq)]
pub struct GameState {
    drift: i64,
    records: Vec<Option<Vec<i64>>>,
}

impl View for GameState {
    type V = StateView;

    closed spec fn view(&self) -> StateView {
        StateView { drift: self.drift, parts: parts_view(self.records@) }
    }
}

/// A copy of a record.
pub fn copy_record(record: &Vec<i64>) -> (out: Vec<i64>)
    ensures
        out@ == record@,
{
    let mut out: Vec<i64> = Vec::new();
    let mut i: usize = 0;
    while i < record.len()
        invariant
            i <= record.len(),
            out@ == record@.take(i as int),
        decreases record.len() - i,
    {
        out.push(record[i]);
        assert(record@.take(i + 1) =~= record@.take(i as int).push(record@[i as int]));
        i += 1;
    }
    assert(record@.take(record.len() as int) =~= record@);
    out
}

impl Clone for GameState {
    fn clone(&self) -> (copy: GameState)
        ensures
            copy@ == self@,
    {
        proof {
            use_type_invariant(self);
        }
        let mut records: Vec<Option<Vec<i64>>> = Vec::new();
        let mut i: usize = 0;
        while i < self.records.len()
            invariant
                i <= self.records@.len(),
                records@.len() == i,
                forall|j: int|
                    0 <= j < i ==> match (#[trigger] records@[j], self.records@[j]) {
                        (Some(a), Some(b)) => a@ == b@,
                        (None, None) => true,
                        _ => false,
                    },
            decreases self.records.len() - i,
        {
            let slot = match &self.records[i] {
                Some(record) => Some(copy_record(record)),
                None => None,
            };
            records.push(slot);
            i += 1;
        }
        assert(parts_view(records@) =~= parts_view(self.records@)) by {
            assert forall|m: Model| slot_view(records@, m) == slot_view(self.records@, m) by {
                if m.index() < records@.len() {
                    let j = m.index() as int;
                    assert(match (records@[j], self.records@[j]) {
                        (Some(a), Some(b)) => a@ == b@,
                        (None, None) => true,
                        _ => false,
                    });
                }
            }
        }
        GameState { drift: self.drift, records }
    }
}

impl Default for GameState {
    fn default() -> (state: GameState)
        ensures
            state@ == empty_state(),
    {
        GameState::new()
    }
}

impl GameState {
    #[verifier::type_invariant]
    spec fn well_formed(self) -> bool {
        &&& self.records@.len() == MODEL_COUNT
        &&& valid_state(self@)
    }

    /// The state before anything has been received: no part is there, and
    /// the clocks are taken to agree.
    pub fn new() -> (state: GameState)
        ensures
            state@ == empty_state(),
    {
        let mut records: Vec<Option<Vec<i64>>> = Vec::new();
        let mut i: usize = 0;
        while i < MODEL_COUNT
            invariant
                i <= MODEL_COUNT,
                records@.len() == i,
                forall|j: int| 0 <= j < i ==> records@[j] is None,
            decreases MODEL_COUNT - i,
        {
            records.push(None);
            i += 1;
        }
        assert(parts_view(records@) =~= Map::<Model, Seq<i64>>::empty());
        GameState { drift: 0, records }
    }

    /// Builds a state from the clock offset and one optional record per
    /// part, in merge order.
    pub(crate) fn from_parts(drift: i64, records: Vec<Option<Vec<i64>>>) -> (state: GameState)
        requires
            records@.len() == MODEL_COUNT,
            valid_state(StateView { drift, parts: parts_view(records@) }),
        ensures
            state@ == (StateView { drift, parts: parts_view(records@) }),
    {
        GameState { drift, records }
    }

    /// States what every game state satisfies: each part that is there has
    /// the shape of its kind.
    pub fn check_valid(&self)
        ensures
            valid_state(self@),
    {
        proof {
            use_type_invariant(self);
        }
    }

    /// Server time minus local time, in seconds.
    pub fn drift(&self) -> (drift: i64)
        ensures
            drift == self@.drift,
    {
        self.drift
    }

    /// Whether the part `model` is there.
    pub fn has(&self, model: Model) -> (present: bool)
        ensures
            present == self@.parts.dom().contains(model),
    {
        proof {
            use_type_invariant(self);
            lemma_model_order();
        }
        self.records[model.position()].is_some()
    }

    /// The numbers of the part `model`, if that part is there.
    pub fn record(&self, model: Model) -> (record: Option<Vec<i64>>)
        ensures
            match record {
                Some(r) => part_of(self@, model) == Some(r@) && valid_part(model, r@),
                None => part_of(self@, model) is None,
            },
    {
        proof {
            use_type_invariant(self);
            lemma_model_order();
        }
        match &self.records[model.position()] {
            Some(r) => {
                assert(self@.parts.dom().contains(model));
                Some(copy_record(r))
            },
            None => None,
        }
    }

    /// The value of `field`, if the part that it belongs to is there.
    pub fn get(&self, field: Field) -> (value: Option<i64>)
        ensures
            value == field_of(self@, field),
    {
        proof {
            use_type_invariant(self);
            lemma_model_order();
            lemma_fields();
        }
        let model = field.owner();
        match &self.records[model.position()] {
            Some(r) => {
                assert(self@.parts.dom().contains(model));
                assert(valid_part(model, r@));
                Some(r[field.position()])
            },
            None => None,
        }
    }
}

} // verus!
