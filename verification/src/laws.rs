//! What holds of every merge of a response into the game state.
//!
//! The functions here are proofs. Each states a law over the same
//! definitions that the contract of `apply` uses, so that what is proved
//! here holds of every call of `apply`.

use vstd::prelude::*;
use crate::assemble::{
    assemble_spec, changed_models, clock_spec, fails_first, get_part,
    lemma_first_failure, lemma_merged_part_shape, lemma_rebuild_shape, merge_with, merged_part,
    merged_parts, none_sent, patchable, patched, rebuild,
};
use crate::error::AssembleError;
use crate::model::{
    clock_key, lemma_fields, lemma_model_order, recognized, Field, Model, MODEL_COUNT,
};
use crate::number::i64_value;
use crate::routing::{lemma_routes_are_distinct, Route};
use crate::state::{field_of, part_of, valid_part, valid_state, StateView};
use crate::store::{lemma_lookup_ignores_order, lookup, valid_entries, Entries};

verus! {

/// Where the first `k` parts in merge order all merge, no part among them
/// fails first; so where some part fails, some part fails first.
proof fn lemma_failure_is_found(entries: Entries, parts: Map<Model, Seq<i64>>, k: int)
    requires
        0 <= k <= MODEL_COUNT,
        forall|m: Model| !fails_first(entries, parts, m),
    ensures
        forall|m: Model| #[trigger] m.index() < k ==> merged_part(entries, parts, m) is Ok,
    decreases k,
{
    lemma_model_order();
    if k > 0 {
        lemma_failure_is_found(entries, parts, k - 1);
        assert forall|m: Model| #[trigger] m.index() < k implies merged_part(entries, parts, m)
            is Ok by {
            if m.index() == k - 1 {
                assert(!fails_first(entries, parts, m));
                assert forall|n: Model| n.index() < m.index() implies (#[trigger] merged_part(
                    entries,
                    parts,
                    n,
                )) is Ok by {
                    assert(n.index() < k - 1);
                }
            }
        }
    }
}

/// A merge gives every part as the response makes it, or fails with the
/// failure of the first part in merge order that fails.
pub proof fn lemma_merged_parts(entries: Entries, parts: Map<Model, Seq<i64>>)
    ensures
        match merged_parts(entries, parts) {
            Ok(merged) => forall|m: Model|
                merged_part(entries, parts, m) == Ok::<Option<Seq<i64>>, AssembleError>(
                    #[trigger] get_part(merged, m),
                ),
            Err(e) => exists|m: Model|
                #[trigger] fails_first(entries, parts, m) && merged_part(entries, parts, m) == Err::<
                    Option<Seq<i64>>,
                    AssembleError,
                >(e),
        },
{
    lemma_model_order();
    if forall|m: Model| (#[trigger] merged_part(entries, parts, m)) is Ok {
        let merged = merged_parts(entries, parts)->Ok_0;
        assert forall|m: Model| merged_part(entries, parts, m) == Ok::<
            Option<Seq<i64>>,
            AssembleError,
        >(#[trigger] get_part(merged, m)) by {
            assert(merged_part(entries, parts, m) is Ok);
        }
    } else {
        if forall|m: Model| !fails_first(entries, parts, m) {
            lemma_failure_is_found(entries, parts, MODEL_COUNT as int);
            assert forall|m: Model| (#[trigger] merged_part(entries, parts, m)) is Ok by {
                assert(m.index() < MODEL_COUNT);
            }
        }
        let first = choose|m: Model| fails_first(entries, parts, m);
        assert(fails_first(entries, parts, first));
    }
}

/// Setting the fields that a response holds on a record that already has
/// them changes nothing.
proof fn lemma_patched_twice(entries: Entries, fields: Seq<Field>, record: Seq<i64>)
    ensures
        patched(entries, fields, patched(entries, fields, record)) == patched(
            entries,
            fields,
            record,
        ),
{
    assert(patched(entries, fields, patched(entries, fields, record)) =~= patched(
        entries,
        fields,
        record,
    ));
}

/// Merging the same response twice is the same as merging it once: the
/// second merge succeeds, leaves the state as the first one left it, and
/// changes no part.
pub proof fn lemma_apply_idempotent(entries: Entries, received_at: i64, state: StateView)
    requires
        valid_state(state),
        assemble_spec(entries, received_at, state) is Ok,
    ensures
        ({
            let once = assemble_spec(entries, received_at, state)->Ok_0;
            &&& assemble_spec(entries, received_at, once) == Ok::<StateView, AssembleError>(once)
            &&& changed_models(once, once) == Set::<Model>::empty()
            &&& valid_state(once)
        }),
{
    let once = assemble_spec(entries, received_at, state)->Ok_0;
    let parts = state.parts;
    let merged = once.parts;
    lemma_merged_parts(entries, parts);
    assert forall|m: Model| merged_part(entries, merged, m) == Ok::<
        Option<Seq<i64>>,
        AssembleError,
    >(#[trigger] get_part(merged, m)) by {
        let first = merged_part(entries, parts, m);
        assert(first == Ok::<Option<Seq<i64>>, AssembleError>(get_part(merged, m)));
        match lookup(entries, m.key()) {
            Some(value) => {},
            None => {
                match get_part(parts, m) {
                    Some(old) => {
                        lemma_patched_twice(entries, m.fields(), old);
                    },
                    None => {},
                }
            },
        }
    }
    assert forall|m: Model| (#[trigger] merged_part(entries, merged, m)) is Ok by {
        assert(merged_part(entries, merged, m) == Ok::<Option<Seq<i64>>, AssembleError>(
            get_part(merged, m),
        ));
    }
    assert(merged_parts(entries, merged)->Ok_0 =~= merged) by {
        assert forall|m: Model| merged_part(entries, merged, m)->Ok_0 == get_part(merged, m) by {
            assert(merged_part(entries, merged, m) == Ok::<Option<Seq<i64>>, AssembleError>(
                get_part(merged, m),
            ));
        }
    }
    assert(changed_models(once, once) =~= Set::<Model>::empty());
    assert forall|m: Model| #[trigger] merged.dom().contains(m) implies valid_part(
        m,
        merged[m],
    ) by {
        lemma_merged_part_shape(entries, m, get_part(parts, m));
        assert(merged_part(entries, parts, m) == Ok::<Option<Seq<i64>>, AssembleError>(
            get_part(merged, m),
        ));
    }
}

/// A merge that succeeds leaves a state in which every part has the shape
/// of its kind.
pub proof fn lemma_apply_keeps_valid(entries: Entries, received_at: i64, state: StateView)
    requires
        valid_state(state),
        assemble_spec(entries, received_at, state) is Ok,
    ensures
        valid_state(assemble_spec(entries, received_at, state)->Ok_0),
{
    lemma_apply_idempotent(entries, received_at, state);
}

/// A response that holds no recognized key is merged without failure,
/// leaves the state as it is, and changes no part. This covers the empty
/// response and the response that holds only keys which the engine does not
/// know.
pub proof fn lemma_unrecognized_changes_nothing(
    entries: Entries,
    received_at: i64,
    state: StateView,
)
    requires
        forall|key: Seq<u8>| recognized(key) ==> lookup(entries, key) is None,
    ensures
        assemble_spec(entries, received_at, state) == Ok::<StateView, AssembleError>(state),
        changed_models(state, state) == Set::<Model>::empty(),
{
    let parts = state.parts;
    assert(recognized(clock_key()));
    assert forall|m: Model| merged_part(entries, parts, m) == Ok::<
        Option<Seq<i64>>,
        AssembleError,
    >(#[trigger] get_part(parts, m)) by {
        assert(recognized(m.key()));
        assert forall|f: Field| #[trigger] f.model() == m implies lookup(entries, f.key())
            is None by {
            assert(recognized(f.key()));
        }
        lemma_part_untouched(entries, parts, m);
    }
    assert forall|m: Model| (#[trigger] merged_part(entries, parts, m)) is Ok by {
        assert(merged_part(entries, parts, m) == Ok::<Option<Seq<i64>>, AssembleError>(
            get_part(parts, m),
        ));
    }
    assert(merged_parts(entries, parts)->Ok_0 =~= parts) by {
        assert forall|m: Model| merged_part(entries, parts, m)->Ok_0 == get_part(parts, m) by {
            assert(merged_part(entries, parts, m) == Ok::<Option<Seq<i64>>, AssembleError>(
                get_part(parts, m),
            ));
        }
    }
    assert(changed_models(state, state) =~= Set::<Model>::empty());
}

/// A part of which a response holds neither the key nor the key of any
/// field is left as it is.
proof fn lemma_part_untouched(entries: Entries, parts: Map<Model, Seq<i64>>, model: Model)
    requires
        lookup(entries, model.key()) is None,
        forall|f: Field| #[trigger] f.model() == model ==> lookup(entries, f.key()) is None,
    ensures
        merged_part(entries, parts, model) == Ok::<Option<Seq<i64>>, AssembleError>(
            get_part(parts, model),
        ),
{
    lemma_fields();
    let fields = model.fields();
    assert forall|i: int| 0 <= i < fields.len() implies lookup(
        entries,
        (#[trigger] fields[i]).key(),
    ) is None by {
        assert(fields[i].model() == model);
    }
    if let Some(old) = get_part(parts, model) {
        assert(patched(entries, fields, old) =~= old);
    }
}

/// The merge of one part asks the store by key only.
proof fn lemma_part_same_lookups(
    a: Entries,
    b: Entries,
    model: Model,
    old: Option<Seq<i64>>,
)
    requires
        forall|key: Seq<u8>| lookup(a, key) == lookup(b, key),
    ensures
        merge_with(a, model, old) == merge_with(b, model, old),
{
    let fields = model.fields();
    assert(patchable(a, fields) == patchable(b, fields));
    assert(none_sent(a, fields) == none_sent(b, fields));
    assert forall|record: Seq<i64>| patched(a, fields, record) == patched(b, fields, record) by {
        assert(patched(a, fields, record) =~= patched(b, fields, record));
    }
}

/// The order in which a response lists its keys has no bearing on the
/// merge: two stores that hold the same entries, in whatever order, give
/// the same state or the same failure.
pub proof fn lemma_apply_ignores_order(a: Entries, b: Entries, received_at: i64, state: StateView)
    requires
        valid_entries(a),
        valid_entries(b),
        forall|e: (Seq<u8>, Seq<u8>)| a.contains(e) <==> b.contains(e),
    ensures
        assemble_spec(a, received_at, state) == assemble_spec(b, received_at, state),
{
    assert forall|key: Seq<u8>| lookup(a, key) == lookup(b, key) by {
        lemma_lookup_ignores_order(a, b, key);
    }
    let parts = state.parts;
    assert forall|m: Model| #[trigger] merged_part(a, parts, m) == merged_part(b, parts, m) by {
        lemma_part_same_lookups(a, b, m, get_part(parts, m));
    }
    lemma_merged_parts(a, parts);
    lemma_merged_parts(b, parts);
    match merged_parts(a, parts) {
        Ok(merged) => {
            assert forall|m: Model| (#[trigger] merged_part(b, parts, m)) is Ok by {
                assert(merged_part(a, parts, m) == merged_part(b, parts, m));
                assert(merged_part(a, parts, m) == Ok::<Option<Seq<i64>>, AssembleError>(
                    get_part(merged, m),
                ));
            }
            assert(merged_parts(b, parts)->Ok_0 =~= merged) by {
                assert forall|m: Model| merged_part(b, parts, m)->Ok_0 == get_part(merged, m) by {
                    assert(merged_part(a, parts, m) == merged_part(b, parts, m));
                    assert(merged_part(a, parts, m) == Ok::<Option<Seq<i64>>, AssembleError>(
                        get_part(merged, m),
                    ));
                }
            }
        },
        Err(e) => {
            let first = choose|m: Model|
                #[trigger] fails_first(a, parts, m) && merged_part(a, parts, m) == Err::<
                    Option<Seq<i64>>,
                    AssembleError,
                >(e);
            assert(fails_first(b, parts, first)) by {
                assert(merged_part(a, parts, first) == merged_part(b, parts, first));
                assert forall|n: Model| n.index() < first.index() implies (#[trigger] merged_part(
                    b,
                    parts,
                    n,
                )) is Ok by {
                    assert(merged_part(a, parts, n) == merged_part(b, parts, n));
                }
            }
            lemma_first_failure(b, parts, first);
        },
    }
}

/// A part that arrives as a whole needs nothing but itself. Whatever the
/// state holds, of this part or of any other, the part merges when its
/// value has the shape of the part and every field that arrives with it is
/// an integer, and it is then the part as sent with those fields as sent.
/// Otherwise the value is at fault, and the failure is `InvalidValue`; it
/// is never `Inconsistent`.
pub proof fn lemma_whole_part_needs_no_other(
    entries: Entries,
    parts: Map<Model, Seq<i64>>,
    model: Model,
)
    requires
        lookup(entries, model.key()) is Some,
    ensures
        ({
            let sent = rebuild(model, lookup(entries, model.key())->0);
            merged_part(entries, parts, model) == if sent is Some && patchable(
                entries,
                model.fields(),
            ) {
                Ok::<Option<Seq<i64>>, AssembleError>(
                    Some(patched(entries, model.fields(), sent->0)),
                )
            } else {
                Err::<Option<Seq<i64>>, AssembleError>(AssembleError::InvalidValue)
            }
        }),
{
}

/// A part that arrives as a whole is rebuilt from what arrived, whatever
/// the state held of it, and the fields that arrive with it are set on the
/// rebuilt part. So a part and one of its fields in one response give the
/// part as sent with that field as sent, in whatever order the two stand.
pub proof fn lemma_apply_replaces_part(
    entries: Entries,
    received_at: i64,
    state: StateView,
    model: Model,
)
    requires
        assemble_spec(entries, received_at, state) is Ok,
        lookup(entries, model.key()) is Some,
    ensures
        ({
            let after = assemble_spec(entries, received_at, state)->Ok_0;
            let sent = rebuild(model, lookup(entries, model.key())->0);
            &&& sent is Some
            &&& part_of(after, model) == Some(patched(entries, model.fields(), sent->0))
        }),
{
    lemma_merged_parts(entries, state.parts);
    let after = assemble_spec(entries, received_at, state)->Ok_0;
    assert(merged_part(entries, state.parts, model) == Ok::<Option<Seq<i64>>, AssembleError>(
        get_part(after.parts, model),
    ));
}

/// A field that arrives alone needs its part: where the state does not hold
/// the part and the response does not bring it, the merge fails. The
/// failure is `Inconsistent`, unless the clock or a part that comes earlier
/// in the merge order has failed before.
pub proof fn lemma_apply_needs_part(
    entries: Entries,
    received_at: i64,
    state: StateView,
    field: Field,
)
    requires
        part_of(state, field.model()) is None,
        lookup(entries, field.model().key()) is None,
        lookup(entries, field.key()) is Some,
    ensures
        assemble_spec(entries, received_at, state) is Err,
        clock_spec(entries, received_at, state.drift) is Ok && (forall|m: Model|
            m.index() < field.model().index() ==> (#[trigger] merged_part(
                entries,
                state.parts,
                m,
            )) is Ok) ==> assemble_spec(entries, received_at, state) == Err::<
            StateView,
            AssembleError,
        >(AssembleError::Inconsistent),
{
    lemma_fields();
    let model = field.model();
    let parts = state.parts;
    assert(model.fields()[field.index() as int] == field);
    assert(!none_sent(entries, model.fields()));
    assert(merged_part(entries, parts, model) == Err::<Option<Seq<i64>>, AssembleError>(
        AssembleError::Inconsistent,
    ));
    lemma_merged_parts(entries, parts);
    if forall|m: Model|
        m.index() < model.index() ==> (#[trigger] merged_part(entries, parts, m)) is Ok {
        assert(fails_first(entries, parts, model));
        lemma_first_failure(entries, parts, model);
    }
}

/// A response that holds nothing but the key of a field whose part is not
/// there is turned down as `Inconsistent`.
pub proof fn lemma_lone_field_is_inconsistent(
    entries: Entries,
    received_at: i64,
    state: StateView,
    field: Field,
)
    requires
        part_of(state, field.model()) is None,
        lookup(entries, field.key()) is Some,
        forall|key: Seq<u8>| key != field.key() ==> lookup(entries, key) is None,
    ensures
        assemble_spec(entries, received_at, state) == Err::<StateView, AssembleError>(
            AssembleError::Inconsistent,
        ),
{
    lemma_routes_are_distinct();
    let own = Route::Single(field);
    assert(own.key() == field.key());
    assert(Route::Clock.key() != own.key());
    assert forall|m: Model| lookup(entries, #[trigger] m.key()) is None by {
        assert(Route::Whole(m).key() != own.key());
    }
    assert forall|m: Model| m.index() < field.model().index() implies (#[trigger] merged_part(
        entries,
        state.parts,
        m,
    )) is Ok by {
        assert forall|f: Field| #[trigger] f.model() == m implies lookup(entries, f.key())
            is None by {
            assert(Route::Single(f).key() != own.key());
        }
        lemma_part_untouched(entries, state.parts, m);
    }
    lemma_apply_needs_part(entries, received_at, state, field);
}

/// Whether a response says anything of `field`: it holds the field's own
/// key, or the key of the part that the field belongs to.
pub open spec fn mentions(entries: Entries, field: Field) -> bool {
    lookup(entries, field.key()) is Some || lookup(entries, field.model().key()) is Some
}

/// The value that a response gives to `field`: the one under the field's
/// own key if the response holds that key, else the one at the field's
/// place in the part as sent.
pub open spec fn sent_value(entries: Entries, field: Field) -> Option<i64> {
    match lookup(entries, field.key()) {
        Some(value) => i64_value(value),
        None => match lookup(entries, field.model().key()) {
            Some(whole) => match rebuild(field.model(), whole) {
                Some(record) => Some(record[field.index() as int]),
                None => None,
            },
            None => None,
        },
    }
}

/// After a merge, a field of which the response says something has the
/// value that the response gives it, and a field of which the response
/// says nothing is as it was. The clock offset is the server's time minus
/// the time of receipt where the response carries the server's time, and is
/// as it was where it does not.
pub proof fn lemma_apply_sets_what_is_sent(
    entries: Entries,
    received_at: i64,
    state: StateView,
    field: Field,
)
    requires
        valid_state(state),
        assemble_spec(entries, received_at, state) is Ok,
    ensures
        ({
            let after = assemble_spec(entries, received_at, state)->Ok_0;
            &&& field_of(after, field) == if mentions(entries, field) {
                sent_value(entries, field)
            } else {
                field_of(state, field)
            }
            &&& lookup(entries, field.key()) matches Some(value) ==> i64_value(value) is Some
                && field_of(after, field) == i64_value(value)
            &&& lookup(entries, clock_key()) matches Some(value) ==> i64_value(value) is Some
                && after.drift == i64_value(value)->0 - received_at
            &&& lookup(entries, clock_key()) is None ==> after.drift == state.drift
        }),
{
    let after = assemble_spec(entries, received_at, state)->Ok_0;
    let model = field.model();
    let fields = model.fields();
    lemma_fields();
    lemma_merged_parts(entries, state.parts);
    assert(merged_part(entries, state.parts, model) == Ok::<Option<Seq<i64>>, AssembleError>(
        get_part(after.parts, model),
    ));
    assert(fields[field.index() as int] == field);
    if let Some(value) = lookup(entries, model.key()) {
        lemma_merged_part_shape(entries, model, get_part(state.parts, model));
        lemma_rebuild_shape(model, value);
    } else {
        if let Some(old) = get_part(state.parts, model) {
            assert(state.parts.dom().contains(model));
        }
    }
}

/// The state after a run of responses has been merged one after the other,
/// each with its time of receipt, or the first failure.
pub open spec fn replay(responses: Seq<(Entries, i64)>, state: StateView) -> Result<
    StateView,
    AssembleError,
>
    decreases responses.len(),
{
    if responses.len() == 0 {
        Ok(state)
    } else {
        match replay(responses.drop_last(), state) {
            Err(e) => Err(e),
            Ok(earlier) => assemble_spec(responses.last().0, responses.last().1, earlier),
        }
    }
}

/// The value that the last response which says anything of `field` gives
/// to it, or the value in `state` where no response says anything of it.
pub open spec fn latest(responses: Seq<(Entries, i64)>, state: StateView, field: Field) -> Option<
    i64,
>
    decreases responses.len(),
{
    if responses.len() == 0 {
        field_of(state, field)
    } else if mentions(responses.last().0, field) {
        sent_value(responses.last().0, field)
    } else {
        latest(responses.drop_last(), state, field)
    }
}

/// The state reflects the most recent value that the server has sent for
/// every field: after any run of responses that have been merged, each
/// field has the value that the last response which said anything of it
/// gave it.
pub proof fn lemma_state_reflects_latest(
    responses: Seq<(Entries, i64)>,
    state: StateView,
    field: Field,
)
    requires
        valid_state(state),
        replay(responses, state) is Ok,
    ensures
        valid_state(replay(responses, state)->Ok_0),
        field_of(replay(responses, state)->Ok_0, field) == latest(responses, state, field),
    decreases responses.len(),
{
    if responses.len() > 0 {
        let earlier = replay(responses.drop_last(), state)->Ok_0;
        lemma_state_reflects_latest(responses.drop_last(), state, field);
        lemma_apply_keeps_valid(responses.last().0, responses.last().1, earlier);
        lemma_apply_sets_what_is_sent(responses.last().0, responses.last().1, earlier, field);
    }
}

} // verus!
