//! Merging a decoded response into the game state.
//!
//! The key that carries the server's time sets the clock offset. Each part
//! of the state is then merged by itself. If the response holds the key of
//! the part, the part is rebuilt from the value of that key, and what the
//! state held of the part is discarded. Each field of the part whose own
//! key the response holds is then set to the value of that key, and the
//! other fields are left. A field can only be set on a part that is there,
//! from before or from the same response.
//!
//! A response is merged as a whole or not at all: when any key fails, the
//! state stays exactly as it was, and the failure reported is that of the
//! first part in merge order that fails.
//!
//! Keys that the tables of `model` do not hold are not looked at. What the
//! store holds is asked by key only, so the order in which the server sent
//! the keys has no bearing on the outcome.

use vstd::prelude::*;
use crate::error::AssembleError;
use crate::model::{
    all_models, clock_key, clock_key_bytes, lemma_fields, lemma_model_order, model_order, Field,
    Model, ITEM_WIDTH, MODEL_COUNT,
};
use crate::number::{i64_value, parse_i64};
use crate::state::{
    copy_record, part_of, parts_view, slot_view, valid_part, GameState, StateView,
};
use crate::store::{list_of, lookup, records_of, split_records, Entries, KeyValueStore};
use crate::text::{nested_views, split, views, PIPE};

verus! {

/// Whether every field of a list is an integer.
pub open spec fn all_ints(fields: Seq<Seq<u8>>) -> bool {
    forall|i: int| 0 <= i < fields.len() ==> i64_value(#[trigger] fields[i]) is Some
}

/// The numbers that a list of fields denotes, if every field is an integer.
pub open spec fn ints_of(fields: Seq<Seq<u8>>) -> Option<Seq<i64>> {
    if all_ints(fields) {
        Some(Seq::new(fields.len(), |i: int| i64_value(fields[i])->0))
    } else {
        None
    }
}

/// Whether a row describes an item: as many integers as an item has
/// numbers.
pub open spec fn is_item(row: Seq<Seq<u8>>) -> bool {
    row.len() == ITEM_WIDTH && all_ints(row)
}

/// Whether every row of a table describes an item.
pub open spec fn all_items(rows: Seq<Seq<Seq<u8>>>) -> bool {
    forall|i: int| 0 <= i < rows.len() ==> is_item(#[trigger] rows[i])
}

/// The numbers of a list of items, one item after the other, if every row
/// describes an item.
pub open spec fn table_of(rows: Seq<Seq<Seq<u8>>>) -> Option<Seq<i64>> {
    if all_items(rows) {
        Some(
            Seq::new(
                rows.len() * ITEM_WIDTH as nat,
                |j: int| i64_value(rows[j / (ITEM_WIDTH as int)][j % (ITEM_WIDTH as int)])->0,
            ),
        )
    } else {
        None
    }
}

/// The part `model` as `value` describes it, if `value` has the shape that
/// the part calls for. A record is a list with one integer for each field.
/// A list part is an array of items, or empty.
pub open spec fn rebuild(model: Model, value: Seq<u8>) -> Option<Seq<i64>> {
    if model.is_list() {
        if value.len() == 0 {
            Some(Seq::<i64>::empty())
        } else {
            table_of(records_of(value))
        }
    } else {
        match ints_of(list_of(value)) {
            Some(record) => if record.len() == model.fields().len() {
                Some(record)
            } else {
                None
            },
            None => None,
        }
    }
}

/// Server time minus local time, if an `i64` can hold it.
pub open spec fn drift_between(server_now: i64, received_at: i64) -> Option<i64> {
    let drift = server_now - received_at;
    if i64::MIN <= drift <= i64::MAX {
        Some(drift as i64)
    } else {
        None
    }
}

/// The clock offset after a response: the one that the server's time and
/// the time of receipt give, or the old one when the response carries no
/// time.
pub open spec fn clock_spec(entries: Entries, received_at: i64, drift: i64) -> Result<
    i64,
    AssembleError,
> {
    match lookup(entries, clock_key()) {
        None => Ok(drift),
        Some(value) => match i64_value(value) {
            None => Err(AssembleError::InvalidValue),
            Some(server_now) => match drift_between(server_now, received_at) {
                Some(d) => Ok(d),
                None => Err(AssembleError::InvalidValue),
            },
        },
    }
}

/// Whether every field among `fields` that the store holds has an integer
/// for its value.
pub open spec fn patchable(entries: Entries, fields: Seq<Field>) -> bool {
    forall|i: int|
        0 <= i < fields.len() ==> (lookup(entries, (#[trigger] fields[i]).key()) matches Some(v)
            ==> i64_value(v) is Some)
}

/// `record` with every field among `fields` that the store holds set to the
/// value that the store holds for it. The `i`-th field stands at place `i`.
pub open spec fn patched(entries: Entries, fields: Seq<Field>, record: Seq<i64>) -> Seq<i64> {
    Seq::new(
        record.len(),
        |i: int|
            if i < fields.len() {
                match lookup(entries, fields[i].key()) {
                    Some(v) => i64_value(v)->0,
                    None => record[i],
                }
            } else {
                record[i]
            },
    )
}

/// Whether the store holds none of the keys of `fields`.
pub open spec fn none_sent(entries: Entries, fields: Seq<Field>) -> bool {
    forall|i: int| 0 <= i < fields.len() ==> lookup(entries, (#[trigger] fields[i]).key()) is None
}

/// The numbers of `model` among `parts`, if that part is there.
pub open spec fn get_part(parts: Map<Model, Seq<i64>>, model: Model) -> Option<Seq<i64>> {
    if parts.dom().contains(model) {
        Some(parts[model])
    } else {
        None
    }
}

/// What a response makes of the part `model`, where `old` is what the state
/// held of the part.
///
/// The part arrives as a whole when the response holds its key: then the
/// value must have the shape of the part, and what the state held is
/// discarded, whatever other parts are there. The fields that the response holds are set on what has
/// arrived, or else on what the state held; where neither is there, the
/// response must hold none of the fields.
pub open spec fn merge_with(
    entries: Entries,
    model: Model,
    old: Option<Seq<i64>>,
) -> Result<Option<Seq<i64>>, AssembleError> {
    let fields = model.fields();
    let start = match lookup(entries, model.key()) {
        None => Ok::<Option<Seq<i64>>, AssembleError>(old),
        Some(value) => match rebuild(model, value) {
            None => Err(AssembleError::InvalidValue),
            Some(sent) => Ok(Some(sent)),
        },
    };
    match start {
        Err(e) => Err(e),
        Ok(None) => if none_sent(entries, fields) {
            Ok(None)
        } else {
            Err(AssembleError::Inconsistent)
        },
        Ok(Some(record)) => if patchable(entries, fields) {
            Ok(Some(patched(entries, fields, record)))
        } else {
            Err(AssembleError::InvalidValue)
        },
    }
}

/// What a response makes of the part `model` of a state that holds `parts`.
pub open spec fn merged_part(entries: Entries, parts: Map<Model, Seq<i64>>, model: Model) -> Result<
    Option<Seq<i64>>,
    AssembleError,
> {
    merge_with(entries, model, get_part(parts, model))
}

/// Whether `model` is the first part in merge order that a response fails
/// on.
pub open spec fn fails_first(entries: Entries, parts: Map<Model, Seq<i64>>, model: Model) -> bool {
    &&& merged_part(entries, parts, model) is Err
    &&& forall|m: Model|
        m.index() < model.index() ==> (#[trigger] merged_part(entries, parts, m)) is Ok
}

/// The parts after a response: every part as the response makes it, or the
/// failure of the first part in merge order that fails.
pub open spec fn merged_parts(entries: Entries, parts: Map<Model, Seq<i64>>) -> Result<
    Map<Model, Seq<i64>>,
    AssembleError,
> {
    if forall|m: Model| (#[trigger] merged_part(entries, parts, m)) is Ok {
        Ok(
            Map::new(
                |m: Model| merged_part(entries, parts, m)->Ok_0 is Some,
                |m: Model| merged_part(entries, parts, m)->Ok_0->0,
            ),
        )
    } else {
        let first = choose|m: Model| fails_first(entries, parts, m);
        Err(merged_part(entries, parts, first)->Err_0)
    }
}

/// The state after a response that was received at `received_at`, or why
/// the response cannot be merged.
pub open spec fn assemble_spec(entries: Entries, received_at: i64, state: StateView) -> Result<
    StateView,
    AssembleError,
> {
    match clock_spec(entries, received_at, state.drift) {
        Err(e) => Err(e),
        Ok(drift) => match merged_parts(entries, state.parts) {
            Err(e) => Err(e),
            Ok(parts) => Ok(StateView { drift, parts }),
        },
    }
}

/// The parts in which two states differ.
pub open spec fn changed_models(before: StateView, after: StateView) -> Set<Model> {
    Set::new(|m: Model| part_of(before, m) != part_of(after, m))
}

/// The view of an optional record.
pub open spec fn record_view(record: Option<Vec<i64>>) -> Option<Seq<i64>> {
    match record {
        Some(r) => Some(r@),
        None => None,
    }
}

/// The first part that fails is the one whose failure is reported.
pub proof fn lemma_first_failure(entries: Entries, parts: Map<Model, Seq<i64>>, model: Model)
    requires
        fails_first(entries, parts, model),
    ensures
        merged_parts(entries, parts) == Err::<Map<Model, Seq<i64>>, AssembleError>(
            merged_part(entries, parts, model)->Err_0,
        ),
{
    lemma_model_order();
    let first = choose|m: Model| fails_first(entries, parts, m);
    assert(fails_first(entries, parts, first));
    if first.index() < model.index() {
        assert(merged_part(entries, parts, first) is Ok);
    }
    if model.index() < first.index() {
        assert(merged_part(entries, parts, model) is Ok);
    }
    assert(model_order()[first.index() as int] == first);
    assert(model_order()[model.index() as int] == model);
}

/// A part is there after a merge exactly when it was there before or the
/// response brings it as a whole, and has the shape of its kind when what
/// the state held of it had.
pub proof fn lemma_merged_part_shape(
    entries: Entries,
    model: Model,
    old: Option<Seq<i64>>,
)
    requires
        old matches Some(r) ==> valid_part(model, r),
    ensures
        merge_with(entries, model, old) matches Ok(part) ==> {
            &&& part is Some <==> (old is Some || lookup(entries, model.key()) is Some)
            &&& part matches Some(r) ==> valid_part(model, r)
        },
{
    if let Some(value) = lookup(entries, model.key()) {
        lemma_rebuild_shape(model, value);
    }
}

/// A part that has been rebuilt has the shape of its kind.
pub proof fn lemma_rebuild_shape(model: Model, value: Seq<u8>)
    ensures
        rebuild(model, value) matches Some(record) ==> valid_part(model, record),
{
    if model.is_list() && value.len() > 0 {
        let rows = records_of(value);
        if table_of(rows) is Some {
            let n = table_of(rows)->0.len();
            assert(n % (ITEM_WIDTH as nat) == 0) by (nonlinear_arith)
                requires
                    n == rows.len() * ITEM_WIDTH,
                    ITEM_WIDTH == 3,
            ;
        }
    }
}

/// The parts of the game state that one response has changed.
#[derive(Debug, PartialEq, Eq)]
pub struct ChangeSet {
    changed: Vec<Model>,
}

impl View for ChangeSet {
    type V = Set<Model>;

    closed spec fn view(&self) -> Set<Model> {
        Set::new(|m: Model| self.changed@.contains(m))
    }
}

/// Whether `models` lists parts in merge order, each at most once.
pub open spec fn in_merge_order(models: Seq<Model>) -> bool {
    forall|i: int, j: int|
        0 <= i < j < models.len() ==> (#[trigger] models[i]).index() < (#[trigger] models[j]).index()
}

impl Clone for ChangeSet {
    fn clone(&self) -> (copy: ChangeSet)
        ensures
            copy@ == self@,
    {
        proof {
            use_type_invariant(self);
        }
        let mut changed: Vec<Model> = Vec::new();
        let mut i: usize = 0;
        while i < self.changed.len()
            invariant
                i <= self.changed@.len(),
                changed@ == self.changed@.take(i as int),
            decreases self.changed.len() - i,
        {
            changed.push(self.changed[i]);
            assert(self.changed@.take(i + 1) =~= self.changed@.take(i as int).push(
                self.changed@[i as int],
            ));
            i += 1;
        }
        assert(self.changed@.take(self.changed@.len() as int) =~= self.changed@);
        ChangeSet { changed }
    }
}

impl ChangeSet {
    #[verifier::type_invariant]
    spec fn well_formed(self) -> bool {
        in_merge_order(self.changed@)
    }

    /// Whether `model` has changed.
    pub fn contains(&self, model: Model) -> (changed: bool)
        ensures
            changed == self@.contains(model),
    {
        let mut i: usize = 0;
        while i < self.changed.len()
            invariant
                i <= self.changed@.len(),
                forall|j: int| 0 <= j < i ==> self.changed@[j] != model,
            decreases self.changed.len() - i,
        {
            if self.changed[i] == model {
                return true;
            }
            i += 1;
        }
        false
    }

    /// Whether nothing has changed.
    pub fn is_empty(&self) -> (empty: bool)
        ensures
            empty == (self@ =~= Set::<Model>::empty()),
    {
        if self.changed.len() == 0 {
            true
        } else {
            assert(self.changed@.contains(self.changed@[0]));
            assert(self@.contains(self.changed@[0]));
            false
        }
    }

    /// The parts that have changed, in merge order, each once.
    pub fn models(&self) -> (models: Vec<Model>)
        ensures
            forall|m: Model| models@.contains(m) <==> self@.contains(m),
            in_merge_order(models@),
    {
        proof {
            use_type_invariant(self);
        }
        let mut models: Vec<Model> = Vec::new();
        let mut i: usize = 0;
        while i < self.changed.len()
            invariant
                i <= self.changed@.len(),
                models@ == self.changed@.take(i as int),
            decreases self.changed.len() - i,
        {
            models.push(self.changed[i]);
            assert(self.changed@.take(i + 1) =~= self.changed@.take(i as int).push(
                self.changed@[i as int],
            ));
            i += 1;
        }
        assert(self.changed@.take(self.changed@.len() as int) =~= self.changed@);
        models
    }
}

/// Reads a list of integers.
fn parse_ints(fields: &Vec<Vec<u8>>) -> (numbers: Option<Vec<i64>>)
    ensures
        record_view(numbers) == ints_of(views(fields@)),
{
    let ghost all = views(fields@);
    let mut numbers: Vec<i64> = Vec::new();
    let mut i: usize = 0;
    while i < fields.len()
        invariant
            i <= fields@.len(),
            all == views(fields@),
            numbers@.len() == i,
            forall|j: int| 0 <= j < i ==> i64_value(#[trigger] all[j]) == Some(numbers@[j]),
        decreases fields.len() - i,
    {
        assert(all[i as int] == fields@[i as int]@);
        match parse_i64(fields[i].as_slice()) {
            None => {
                assert(!all_ints(all));
                return None;
            },
            Some(v) => {
                numbers.push(v);
            },
        }
        i += 1;
    }
    assert(all_ints(all));
    assert(numbers@ =~= ints_of(all)->0);
    Some(numbers)
}

/// Reads a list of items.
fn parse_table(rows: &Vec<Vec<Vec<u8>>>) -> (numbers: Option<Vec<i64>>)
    ensures
        record_view(numbers) == table_of(nested_views(rows@)),
{
    let ghost all = nested_views(rows@);
    let mut numbers: Vec<i64> = Vec::new();
    let mut i: usize = 0;
    while i < rows.len()
        invariant
            i <= rows@.len(),
            all == nested_views(rows@),
            numbers@.len() == 3 * i,
            forall|k: int| 0 <= k < i ==> is_item(#[trigger] all[k]),
            forall|k: int, c: int|
                0 <= k < i && 0 <= c < 3 ==> i64_value(#[trigger] all[k][c]) == Some(
                    numbers@[3 * k + c],
                ),
        decreases rows.len() - i,
    {
        assert(all[i as int] == views(rows@[i as int]@));
        match parse_ints(&rows[i]) {
            None => {
                assert(!is_item(all[i as int]));
                return None;
            },
            Some(row) => {
                if row.len() != ITEM_WIDTH {
                    assert(!is_item(all[i as int]));
                    return None;
                }
                let ghost before = numbers@;
                numbers.push(row[0]);
                numbers.push(row[1]);
                numbers.push(row[2]);
                assert forall|k: int, c: int| 0 <= k < i + 1 && 0 <= c < 3 implies i64_value(
                    #[trigger] all[k][c],
                ) == Some(numbers@[3 * k + c]) by {
                    if k < i {
                        assert(numbers@[3 * k + c] == before[3 * k + c]);
                    } else {
                        assert(i64_value(all[i as int][c]) == Some(row@[c]));
                    }
                }
            },
        }
        i += 1;
    }
    assert(all_items(all));
    assert(numbers@ =~= table_of(all)->0) by {
        let wanted = table_of(all)->0;
        assert(wanted.len() == numbers@.len());
        assert forall|j: int| 0 <= j < numbers@.len() implies numbers@[j] == wanted[j] by {
            let k = j / 3;
            let c = j % 3;
            assert(0 <= k < all.len() && 0 <= c < 3 && j == 3 * k + c);
            assert(i64_value(all[k][c]) == Some(numbers@[3 * k + c]));
        }
    }
    Some(numbers)
}

/// Rebuilds a part from the value of its key.
fn rebuild_part(model: Model, value: &Vec<u8>) -> (record: Option<Vec<i64>>)
    ensures
        record_view(record) == rebuild(model, value@),
{
    if model.holds_list() {
        if value.len() == 0 {
            return Some(Vec::new());
        }
        let rows = split_records(value.as_slice());
        parse_table(&rows)
    } else {
        let fields = split(value.as_slice(), PIPE);
        match parse_ints(&fields) {
            None => None,
            Some(record) => {
                let wanted = model.field_list();
                if record.len() == wanted.len() {
                    Some(record)
                } else {
                    None
                }
            },
        }
    }
}

/// Merges what the store holds of one part.
fn merge_one(store: &KeyValueStore, model: Model, old: Option<Vec<i64>>) -> (merged:
    Result<Option<Vec<i64>>, AssembleError>)
    requires
        old matches Some(r) ==> valid_part(model, r@),
    ensures
        match merged {
            Ok(part) => merge_with(store@, model, record_view(old)) == Ok::<
                Option<Seq<i64>>,
                AssembleError,
            >(record_view(part)),
            Err(e) => merge_with(store@, model, record_view(old)) == Err::<
                Option<Seq<i64>>,
                AssembleError,
            >(e),
        },
{
    let key = model.key_bytes();
    let mut part: Option<Vec<i64>> = match store.get(key.as_slice()) {
        None => old,
        Some(value) => {
            match rebuild_part(model, value) {
                None => {
                    return Err(AssembleError::InvalidValue);
                },
                Some(record) => {
                    proof {
                        lemma_rebuild_shape(model, value@);
                    }
                    Some(record)
                },
            }
        },
    };
    let ghost start = record_view(part);
    let fields = model.field_list();
    let mut i: usize = 0;
    proof {
        lemma_fields();
        if let Some(r) = start {
            assert(patched(store@, fields@.take(0), r) =~= r);
        }
    }
    while i < fields.len()
        invariant
            i <= fields@.len(),
            fields@ == model.fields(),
            start matches Some(r) ==> valid_part(model, r),
            merge_with(store@, model, record_view(old)) == match start {
                Some(r) => if patchable(store@, fields@) {
                    Ok::<Option<Seq<i64>>, AssembleError>(Some(patched(store@, fields@, r)))
                } else {
                    Err::<Option<Seq<i64>>, AssembleError>(AssembleError::InvalidValue)
                },
                None => if none_sent(store@, fields@) {
                    Ok::<Option<Seq<i64>>, AssembleError>(None)
                } else {
                    Err::<Option<Seq<i64>>, AssembleError>(AssembleError::Inconsistent)
                },
            },
            match start {
                Some(r) => patchable(store@, fields@.take(i as int)) && record_view(part) == Some(
                    patched(store@, fields@.take(i as int), r),
                ),
                None => none_sent(store@, fields@.take(i as int)) && part is None,
            },
        decreases fields.len() - i,
    {
        let field = fields[i];
        let ghost done = fields@.take(i as int);
        let ghost next = fields@.take(i + 1);
        proof {
            lemma_fields();
            assert(next[i as int] == field);
            assert(field.index() == i);
            assert forall|j: int| 0 <= j < i implies next[j] == done[j] by {}
        }
        let field_key = field.key_bytes();
        match store.get(field_key.as_slice()) {
            None => {
                proof {
                    match start {
                        Some(r) => {
                            assert(patchable(store@, next)) by {
                                assert forall|j: int| 0 <= j < next.len() implies (lookup(
                                    store@,
                                    (#[trigger] next[j]).key(),
                                ) matches Some(v) ==> i64_value(v) is Some) by {
                                    if j < i {
                                        assert(next[j] == done[j]);
                                    }
                                }
                            }
                            assert(patched(store@, next, r) =~= patched(store@, done, r)) by {
                                assert forall|j: int| 0 <= j < r.len() implies patched(
                                    store@,
                                    next,
                                    r,
                                )[j] == patched(store@, done, r)[j] by {
                                    if j < i {
                                        assert(next[j] == done[j]);
                                    }
                                }
                            }
                        },
                        None => {
                            assert forall|j: int| 0 <= j < next.len() implies lookup(
                                store@,
                                (#[trigger] next[j]).key(),
                            ) is None by {
                                if j < i {
                                    assert(next[j] == done[j]);
                                }
                            }
                        },
                    }
                }
            },
            Some(value) => {
                match part {
                    None => {
                        proof {
                            assert(fields@[i as int] == field);
                            assert(!none_sent(store@, fields@));
                        }
                        return Err(AssembleError::Inconsistent);
                    },
                    Some(mut record) => {
                        match parse_i64(value.as_slice()) {
                            None => {
                                proof {
                                    assert(fields@[i as int] == field);
                                    assert(!patchable(store@, fields@));
                                }
                                return Err(AssembleError::InvalidValue);
                            },
                            Some(v) => {
                                let ghost r = start->0;
                                record[field.position()] = v;
                                proof {
                                    assert(patchable(store@, next)) by {
                                        assert forall|j: int| 0 <= j < next.len() implies (lookup(
                                            store@,
                                            (#[trigger] next[j]).key(),
                                        ) matches Some(w) ==> i64_value(w) is Some) by {
                                            if j < i {
                                                assert(next[j] == done[j]);
                                            }
                                        }
                                    }
                                    assert(record@ =~= patched(store@, next, r)) by {
                                        assert forall|j: int| 0 <= j < r.len() implies record@[j]
                                            == patched(store@, next, r)[j] by {
                                            if j < i {
                                                assert(next[j] == done[j]);
                                            }
                                        }
                                    }
                                }
                                part = Some(record);
                            },
                        }
                    },
                }
            },
        }
        i += 1;
    }
    assert(fields@.take(fields@.len() as int) =~= fields@);
    Ok(part)
}

/// Reads the clock offset that a response gives.
fn read_clock(store: &KeyValueStore, received_at: i64, drift: i64) -> (offset: Result<
    i64,
    AssembleError,
>)
    ensures
        offset == clock_spec(store@, received_at, drift),
{
    let key = clock_key_bytes();
    match store.get(key.as_slice()) {
        None => Ok(drift),
        Some(value) => match parse_i64(value.as_slice()) {
            None => Err(AssembleError::InvalidValue),
            Some(server_now) => {
                let offset: i128 = server_now as i128 - received_at as i128;
                if offset < i64::MIN as i128 || offset > i64::MAX as i128 {
                    Err(AssembleError::InvalidValue)
                } else {
                    Ok(offset as i64)
                }
            },
        },
    }
}

/// Whether two optional records hold the same numbers.
fn same_record(a: &Option<Vec<i64>>, b: &Option<Vec<i64>>) -> (same: bool)
    ensures
        same == (record_view(*a) == record_view(*b)),
{
    match (a, b) {
        (None, None) => true,
        (Some(x), Some(y)) => {
            if x.len() != y.len() {
                return false;
            }
            let mut i: usize = 0;
            while i < x.len()
                invariant
                    i <= x@.len(),
                    x@.len() == y@.len(),
                    record_view(*a) == Some(x@),
                    record_view(*b) == Some(y@),
                    forall|j: int| 0 <= j < i ==> x@[j] == y@[j],
                decreases x.len() - i,
            {
                if x[i] != y[i] {
                    return false;
                }
                i += 1;
            }
            assert(x@ =~= y@);
            true
        },
        _ => false,
    }
}

/// A copy of an optional record.
fn copy_slot(slot: &Option<Vec<i64>>) -> (out: Option<Vec<i64>>)
    ensures
        record_view(out) == record_view(*slot),
{
    match slot {
        Some(record) => Some(copy_record(record)),
        None => None,
    }
}

/// A list in merge order stays so when a part is added that comes after
/// all that it lists.
proof fn lemma_push_keeps_order(listed: Seq<Model>, model: Model)
    requires
        in_merge_order(listed),
        forall|k: int| 0 <= k < listed.len() ==> (#[trigger] listed[k]).index() < model.index(),
    ensures
        in_merge_order(listed.push(model)),
        forall|k: int|
            0 <= k < listed.push(model).len() ==> (#[trigger] listed.push(model)[k]).index()
                < model.index() + 1,
{
    let longer = listed.push(model);
    assert forall|a: int, b: int| 0 <= a < b < longer.len() implies (#[trigger] longer[a]).index()
        < (#[trigger] longer[b]).index() by {
        assert(longer[a] == listed[a]);
        if b < listed.len() {
            assert(longer[b] == listed[b]);
        }
    }
    assert forall|k: int| 0 <= k < longer.len() implies (#[trigger] longer[k]).index()
        < model.index() + 1 by {
        if k < listed.len() {
            assert(longer[k] == listed[k]);
        }
    }
}

/// Merges a decoded response into the game state.
///
/// `received_at` is the local time, in seconds, at which the response
/// arrived. On success the state is the one that `assemble_spec` gives, and
/// the result names the parts whose numbers are no longer what they were. On
/// failure the state is what it was.
pub fn apply(store: &KeyValueStore, received_at: i64, state: &mut GameState) -> (result: Result<
    ChangeSet,
    AssembleError,
>)
    ensures
        match result {
            Ok(changes) => assemble_spec(store@, received_at, old(state)@) == Ok::<
                StateView,
                AssembleError,
            >(final(state)@) && changes@ == changed_models(old(state)@, final(state)@),
            Err(e) => assemble_spec(store@, received_at, old(state)@) == Err::<
                StateView,
                AssembleError,
            >(e) && final(state)@ == old(state)@,
        },
{
    let ghost before = state@;
    let drift = match read_clock(store, received_at, state.drift()) {
        Ok(d) => d,
        Err(e) => {
            return Err(e);
        },
    };
    let order = all_models();
    proof {
        lemma_model_order();
    }
    let mut records: Vec<Option<Vec<i64>>> = Vec::new();
    let mut i: usize = 0;
    while i < order.len()
        invariant
            i <= order@.len(),
            order@ == model_order(),
            order@.len() == MODEL_COUNT,
            state@ == before,
            records@.len() == i,
            forall|j: int|
                0 <= j < i ==> record_view(#[trigger] records@[j]) == part_of(before, order@[j]),
            forall|j: int|
                0 <= j < i ==> (#[trigger] records@[j] matches Some(r) ==> valid_part(
                    order@[j],
                    r@,
                )),
        decreases order.len() - i,
    {
        let slot = state.record(order[i]);
        records.push(slot);
        i += 1;
    }
    assert forall|m: Model| slot_view(records@, m) == part_of(before, m) by {
        assert(order@[m.index() as int] == m);
        assert(record_view(records@[m.index() as int]) == part_of(before, m));
    }
    let mut changed: Vec<Model> = Vec::new();
    i = 0;
    while i < order.len()
        invariant
            i <= order@.len(),
            order@ == model_order(),
            order@.len() == MODEL_COUNT,
            state@ == before,
            records@.len() == MODEL_COUNT,
            clock_spec(store@, received_at, before.drift) == Ok::<i64, AssembleError>(drift),
            forall|j: int|
                0 <= j < MODEL_COUNT ==> (#[trigger] records@[j] matches Some(r) ==> valid_part(
                    order@[j],
                    r@,
                )),
            forall|m: Model| #[trigger]
                m.index() < i ==> merged_part(store@, before.parts, m) == Ok::<
                    Option<Seq<i64>>,
                    AssembleError,
                >(slot_view(records@, m)),
            forall|m: Model| #[trigger] m.index() >= i ==> slot_view(records@, m) == part_of(before, m),
            forall|m: Model|
                changed@.contains(m) <==> (m.index() < i && part_of(before, m) != slot_view(
                    records@,
                    m,
                )),
            in_merge_order(changed@),
            forall|k: int| 0 <= k < changed@.len() ==> (#[trigger] changed@[k]).index() < i,
        decreases order.len() - i,
    {
        let model = order[i];
        let ghost earlier = records@;
        let ghost listed = changed@;
        proof {
            lemma_model_order();
            assert(order@[model.index() as int] == model);
            assert(model.index() == i);
        }
        let old = copy_slot(&records[i]);
        assert(record_view(old) == get_part(before.parts, model)) by {
            assert(slot_view(records@, model) == record_view(records@[i as int]));
        }
        let merged = match merge_one(store, model, old) {
            Ok(part) => part,
            Err(e) => {
                proof {
                    assert(fails_first(store@, before.parts, model));
                    lemma_first_failure(store@, before.parts, model);
                }
                return Err(e);
            },
        };
        proof {
            lemma_merged_part_shape(store@, model, record_view(old));
        }
        let differs = !same_record(&records[i], &merged);
        records[i] = merged;
        if differs {
            changed.push(model);
        }
        proof {
            assert forall|m: Model| m != model implies slot_view(records@, m) == slot_view(
                earlier,
                m,
            ) by {
                assert(order@[m.index() as int] == m);
                assert(m.index() != i);
            }
            assert(slot_view(records@, model) == record_view(merged));
            if differs {
                lemma_push_keeps_order(listed, model);
            }
            assert forall|m: Model| changed@.contains(m) <==> (m.index() < i + 1 && part_of(
                before,
                m,
            ) != slot_view(records@, m)) by {
                assert(order@[m.index() as int] == m);
                if m == model {
                    if differs {
                        assert(changed@[changed@.len() - 1] == model);
                    } else {
                        assert(!listed.contains(model));
                    }
                } else {
                    assert(m.index() != i);
                    if differs {
                        if listed.contains(m) {
                            let k = choose|k: int| 0 <= k < listed.len() && listed[k] == m;
                            assert(changed@[k] == m);
                        }
                        if changed@.contains(m) {
                            let k = choose|k: int| 0 <= k < changed@.len() && changed@[k] == m;
                            assert(k < listed.len());
                            assert(listed[k] == m);
                        }
                    }
                }
            }
            assert forall|j: int| 0 <= j < MODEL_COUNT implies (#[trigger] records@[j] matches Some(r)
                ==> valid_part(order@[j], r@)) by {
                if j != i {
                    assert(records@[j] == earlier[j]);
                }
            }
            assert forall|m: Model| #[trigger] m.index() < i + 1 implies merged_part(
                store@,
                before.parts,
                m,
            ) == Ok::<Option<Seq<i64>>, AssembleError>(slot_view(records@, m)) by {
                assert(order@[m.index() as int] == m);
            }
            assert forall|m: Model| #[trigger] m.index() >= i + 1 implies slot_view(records@, m)
                == part_of(before, m) by {
                assert(m != model);
            }
        }
        i += 1;
    }
    let ghost after = StateView { drift, parts: parts_view(records@) };
    proof {
        assert forall|m: Model| (#[trigger] merged_part(store@, before.parts, m)) is Ok by {
            assert(m.index() < MODEL_COUNT);
        }
        assert(merged_parts(store@, before.parts)->Ok_0 =~= parts_view(records@)) by {
            assert forall|m: Model| merged_part(store@, before.parts, m)->Ok_0 == slot_view(
                records@,
                m,
            ) by {
                assert(m.index() < MODEL_COUNT);
            }
        }
        assert forall|m: Model| #[trigger] after.parts.dom().contains(m) implies valid_part(
            m,
            after.parts[m],
        ) by {
            assert(order@[m.index() as int] == m);
            assert(records@[m.index() as int] is Some);
        }
        assert forall|m: Model| changed@.contains(m) <==> part_of(before, m) != part_of(after, m) by {
            assert(slot_view(records@, m) == part_of(after, m));
            assert(m.index() < MODEL_COUNT);
        }
    }
    *state = GameState::from_parts(drift, records);
    let changes = ChangeSet { changed };
    assert(changes@ =~= changed_models(before, after));
    Ok(changes)
}

} // verus!
