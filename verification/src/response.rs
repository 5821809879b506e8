//! A decoded response together with the local time of its arrival.

use vstd::prelude::*;
use crate::assemble::{apply, assemble_spec, changed_models, ChangeSet};
use crate::decode::{decode, decode_spec};
use crate::error::{AssembleError, DecodeError};
use crate::model::{all_models, lemma_model_order, model_order, Model, MODEL_COUNT};
use crate::state::{GameState, StateView};
use crate::store::{lookup, valid_entries, Entries, KeyValueStore};

verus! {

/// Whether a response stands for whole parts of the state or only for
/// single fields.
#[derive(Clone, Copy, Debug, PartialEq, Eq, Structural)]
pub enum ResponseKind {
    /// The response brings at least one part as a whole.
    Full,
    /// The response brings no part as a whole: single fields at most.
    Partial,
}

/// Whether a store holds the key of a part as a whole.
pub open spec fn holds_whole_part(entries: Entries) -> bool {
    exists|m: Model| lookup(entries, #[trigger] m.key()) is Some
}

/// The kind of a response that holds `entries`.
pub open spec fn kind_of(entries: Entries) -> ResponseKind {
    if holds_whole_part(entries) {
        ResponseKind::Full
    } else {
        ResponseKind::Partial
    }
}

/// What the server answered to one request.
#[derive(Debug, PartialEq, Eq)]
pub struct Response {
    /// What the payload decoded to.
    pub store: KeyValueStore,
    /// The local time, in seconds, at which the payload arrived.
    pub received_at: i64,
}

impl Clone for Response {
    fn clone(&self) -> (copy: Response)
        ensures
            copy.store@ == self.store@,
            copy.received_at == self.received_at,
    {
        Response { store: self.store.clone(), received_at: self.received_at }
    }
}

impl Response {
    /// Decodes a payload that arrived at `received_at`.
    pub fn parse(raw: &[u8], received_at: i64) -> (result: Result<Response, DecodeError>)
        ensures
            match result {
                Ok(response) => decode_spec(raw@) == Ok::<Entries, DecodeError>(response.store@)
                    && valid_entries(response.store@) && response.received_at == received_at,
                Err(e) => decode_spec(raw@) == Err::<Entries, DecodeError>(e),
            },
    {
        match decode(raw) {
            Ok(store) => Ok(Response { store, received_at }),
            Err(e) => Err(e),
        }
    }

    /// The keys and values of the response.
    pub fn values(&self) -> (store: &KeyValueStore)
        ensures
            store@ == self.store@,
    {
        &self.store
    }

    /// The local time, in seconds, at which the response arrived.
    pub fn received_at(&self) -> (at: i64)
        ensures
            at == self.received_at,
    {
        self.received_at
    }

    /// Whether the response brings whole parts or single fields only.
    pub fn kind(&self) -> (kind: ResponseKind)
        ensures
            kind == kind_of(self.store@),
    {
        if brings_whole_part(&self.store) {
            ResponseKind::Full
        } else {
            ResponseKind::Partial
        }
    }

    /// Merges the response into `state`, as `apply` does.
    pub fn apply_to(&self, state: &mut GameState) -> (result: Result<ChangeSet, AssembleError>)
        ensures
            match result {
                Ok(changes) => assemble_spec(self.store@, self.received_at, old(state)@) == Ok::<
                    StateView,
                    AssembleError,
                >(final(state)@) && changes@ == changed_models(old(state)@, final(state)@),
                Err(e) => assemble_spec(self.store@, self.received_at, old(state)@) == Err::<
                    StateView,
                    AssembleError,
                >(e) && final(state)@ == old(state)@,
            },
    {
        apply(&self.store, self.received_at, state)
    }
}

/// Whether a store holds the key of a part as a whole.
pub fn brings_whole_part(store: &KeyValueStore) -> (whole: bool)
    ensures
        whole == holds_whole_part(store@),
{
    let order = all_models();
    let mut i: usize = 0;
    while i < order.len()
        invariant
            i <= order@.len(),
            order@ == model_order(),
            forall|m: Model| #[trigger] m.index() < i ==> lookup(store@, m.key()) is None,
        decreases order.len() - i,
    {
        let model = order[i];
        proof {
            lemma_model_order();
            assert forall|m: Model| #[trigger] m.index() == i implies m == model by {
                assert(order@[m.index() as int] == m);
            }
        }
        let key = model.key_bytes();
        if store.contains_key(key.as_slice()) {
            return true;
        }
        i += 1;
    }
    proof {
        lemma_model_order();
        assert forall|m: Model| lookup(store@, #[trigger] m.key()) is None by {
            assert(m.index() < MODEL_COUNT);
        }
    }
    false
}

} // verus!
