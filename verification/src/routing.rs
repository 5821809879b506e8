//! The routing of keys.
//!
//! Every key that the tables of `model` hold goes one way: to the clock, to
//! a part as a whole, or to a single field of a part. A key that goes to a
//! part as a whole replaces the part; a key that goes to a field patches
//! that field. No key goes two ways, which is proved here once and for all.

use vstd::prelude::*;
use vstd::string::*;
use crate::model::{
    all_models, clock_key, clock_key_bytes, lemma_fields, lemma_model_order, model_order,
    recognized, Field, Model, MODEL_COUNT,
};
use crate::store::{keys_of, KeyValueStore};
use crate::text::{bytes_eq, copy_bytes, views};

verus! {

/// How the value of a key is merged into the part that it belongs to.
#[derive(Clone, Copy, Debug, PartialEq, Eq, Structural)]
pub enum MergePolicy {
    /// The value is the part as a whole: what the state held of the part is
    /// discarded and the part is rebuilt.
    Replace,
    /// The value is one field of the part: that field is set and the others
    /// are left.
    Patch,
}

/// Where a key goes.
#[derive(Clone, Copy, Debug, PartialEq, Eq, Structural)]
pub enum Route {
    /// To the clock: the value is the server's time.
    Clock,
    /// To a part as a whole.
    Whole(Model),
    /// To a single field of a part.
    Single(Field),
}

impl Route {
    /// The key that goes this way.
    pub open spec fn key(self) -> Seq<u8> {
        match self {
            Route::Clock => clock_key(),
            Route::Whole(model) => model.key(),
            Route::Single(field) => field.key(),
        }
    }

    /// The key that goes this way.
    pub fn key_bytes(self) -> (key: Vec<u8>)
        ensures
            key@ == self.key(),
    {
        match self {
            Route::Clock => clock_key_bytes(),
            Route::Whole(model) => model.key_bytes(),
            Route::Single(field) => field.key_bytes(),
        }
    }

    /// The part that the key belongs to, if it belongs to one.
    pub open spec fn model(self) -> Option<Model> {
        match self {
            Route::Clock => None,
            Route::Whole(model) => Some(model),
            Route::Single(field) => Some(field.model()),
        }
    }

    /// The part that the key belongs to, if it belongs to one.
    pub fn owner(self) -> (model: Option<Model>)
        ensures
            model == self.model(),
    {
        match self {
            Route::Clock => None,
            Route::Whole(model) => Some(model),
            Route::Single(field) => Some(field.owner()),
        }
    }

    /// How the value of the key is merged, if the key belongs to a part.
    pub open spec fn policy(self) -> Option<MergePolicy> {
        match self {
            Route::Clock => None,
            Route::Whole(_) => Some(MergePolicy::Replace),
            Route::Single(_) => Some(MergePolicy::Patch),
        }
    }

    /// How the value of the key is merged, if the key belongs to a part.
    pub fn merge_policy(self) -> (policy: Option<MergePolicy>)
        ensures
            policy == self.policy(),
    {
        match self {
            Route::Clock => None,
            Route::Whole(_) => Some(MergePolicy::Replace),
            Route::Single(_) => Some(MergePolicy::Patch),
        }
    }
}

/// Where `key` goes, if the tables hold it.
pub open spec fn route_of(key: Seq<u8>) -> Option<Route> {
    if exists|route: Route| #[trigger] route.key() == key {
        Some(choose|route: Route| #[trigger] route.key() == key)
    } else {
        None
    }
}

/// What tells the keys of the tables apart: the length of a key, its first
/// byte, and its last byte but one.
spec fn mark(key: Seq<u8>) -> (nat, u8, u8) {
    (key.len(), key[0], key[key.len() - 2])
}

/// The mark of the key of each route.
spec fn mark_of(route: Route) -> (nat, u8, u8) {
    match route {
        Route::Clock => (9, 116, 109),
        Route::Whole(model) => match model {
            Model::Character => (9, 99, 101),
            Model::Items => (9, 101, 110),
            Model::Tavern => (6, 116, 114),
            Model::Dungeons => (8, 100, 110),
            Model::Guild => (5, 103, 108),
            Model::Social => (6, 115, 97),
            Model::Fortress => (8, 102, 115),
            Model::Underworld => (10, 117, 108),
            Model::Unlockables => (11, 117, 101),
        },
        Route::Single(field) => match field {
            Field::CharacterLevel => (15, 99, 101),
            Field::CharacterExperience => (20, 99, 99),
            Field::CharacterSilver => (16, 99, 101),
            Field::CharacterMushrooms => (19, 99, 109),
            Field::TavernThirst => (13, 116, 115),
            Field::TavernBeers => (12, 116, 114),
            Field::TavernActivity => (15, 116, 116),
            Field::TavernBusyUntil => (17, 116, 105),
            Field::DungeonsLight => (14, 100, 104),
            Field::DungeonsShadow => (15, 100, 111),
            Field::DungeonsTower => (14, 100, 101),
            Field::GuildIdent => (11, 103, 110),
            Field::GuildRank => (10, 103, 110),
            Field::GuildHonor => (11, 103, 111),
            Field::SocialFriends => (14, 115, 100),
            Field::SocialIgnored => (14, 115, 101),
            Field::FortressLevel => (14, 102, 101),
            Field::FortressWood => (13, 102, 111),
            Field::FortressStone => (14, 102, 110),
            Field::UnderworldLevel => (16, 117, 101),
            Field::UnderworldSouls => (16, 117, 108),
            Field::UnderworldSilver => (17, 117, 101),
            Field::UnlockablesPets => (16, 117, 116),
            Field::UnlockablesScrapbook => (21, 117, 111),
            Field::UnlockablesAchievements => (24, 117, 116),
        },
    }
}

/// The bytes of a word of ASCII letters are its letters.
proof fn lemma_word(word: &str)
    requires
        is_ascii(word),
        word@.len() >= 2,
    ensures
        mark(word.spec_bytes()) == (
            word@.len(),
            word@[0] as u8,
            word@[word@.len() - 2] as u8,
        ),
{
    is_ascii_spec_bytes(word);
}

/// The key of each route bears the mark that the table gives it.
proof fn lemma_mark(route: Route)
    ensures
        mark(route.key()) == mark_of(route),
{
    match route {
        Route::Clock => {
            reveal_strlit("timestamp");
            lemma_word("timestamp");
        },
        Route::Whole(model) => match model {
            Model::Character => {
                reveal_strlit("character");
                lemma_word("character");
            },
            Model::Items => {
                reveal_strlit("equipment");
                lemma_word("equipment");
            },
            Model::Tavern => {
                reveal_strlit("tavern");
                lemma_word("tavern");
            },
            Model::Dungeons => {
                reveal_strlit("dungeons");
                lemma_word("dungeons");
            },
            Model::Guild => {
                reveal_strlit("guild");
                lemma_word("guild");
            },
            Model::Social => {
                reveal_strlit("social");
                lemma_word("social");
            },
            Model::Fortress => {
                reveal_strlit("fortress");
                lemma_word("fortress");
            },
            Model::Underworld => {
                reveal_strlit("underworld");
                lemma_word("underworld");
            },
            Model::Unlockables => {
                reveal_strlit("unlockables");
                lemma_word("unlockables");
            },
        },
        Route::Single(field) => match field {
            Field::CharacterLevel => {
                reveal_strlit("character.level");
                lemma_word("character.level");
            },
            Field::CharacterExperience => {
                reveal_strlit("character.experience");
                lemma_word("character.experience");
            },
            Field::CharacterSilver => {
                reveal_strlit("character.silver");
                lemma_word("character.silver");
            },
            Field::CharacterMushrooms => {
                reveal_strlit("character.mushrooms");
                lemma_word("character.mushrooms");
            },
            Field::TavernThirst => {
                reveal_strlit("tavern.thirst");
                lemma_word("tavern.thirst");
            },
            Field::TavernBeers => {
                reveal_strlit("tavern.beers");
                lemma_word("tavern.beers");
            },
            Field::TavernActivity => {
                reveal_strlit("tavern.activity");
                lemma_word("tavern.activity");
            },
            Field::TavernBusyUntil => {
                reveal_strlit("tavern.busy_until");
                lemma_word("tavern.busy_until");
            },
            Field::DungeonsLight => {
                reveal_strlit("dungeons.light");
                lemma_word("dungeons.light");
            },
            Field::DungeonsShadow => {
                reveal_strlit("dungeons.shadow");
                lemma_word("dungeons.shadow");
            },
            Field::DungeonsTower => {
                reveal_strlit("dungeons.tower");
                lemma_word("dungeons.tower");
            },
            Field::GuildIdent => {
                reveal_strlit("guild.ident");
                lemma_word("guild.ident");
            },
            Field::GuildRank => {
                reveal_strlit("guild.rank");
                lemma_word("guild.rank");
            },
            Field::GuildHonor => {
                reveal_strlit("guild.honor");
                lemma_word("guild.honor");
            },
            Field::SocialFriends => {
                reveal_strlit("social.friends");
                lemma_word("social.friends");
            },
            Field::SocialIgnored => {
                reveal_strlit("social.ignored");
                lemma_word("social.ignored");
            },
            Field::FortressLevel => {
                reveal_strlit("fortress.level");
                lemma_word("fortress.level");
            },
            Field::FortressWood => {
                reveal_strlit("fortress.wood");
                lemma_word("fortress.wood");
            },
            Field::FortressStone => {
                reveal_strlit("fortress.stone");
                lemma_word("fortress.stone");
            },
            Field::UnderworldLevel => {
                reveal_strlit("underworld.level");
                lemma_word("underworld.level");
            },
            Field::UnderworldSouls => {
                reveal_strlit("underworld.souls");
                lemma_word("underworld.souls");
            },
            Field::UnderworldSilver => {
                reveal_strlit("underworld.silver");
                lemma_word("underworld.silver");
            },
            Field::UnlockablesPets => {
                reveal_strlit("unlockables.pets");
                lemma_word("unlockables.pets");
            },
            Field::UnlockablesScrapbook => {
                reveal_strlit("unlockables.scrapbook");
                lemma_word("unlockables.scrapbook");
            },
            Field::UnlockablesAchievements => {
                reveal_strlit("unlockables.achievements");
                lemma_word("unlockables.achievements");
            },
        },
    }
}

/// No key goes two ways: two routes with the same key are the same route.
pub proof fn lemma_routes_are_distinct()
    ensures
        forall|a: Route, b: Route| #[trigger] a.key() == #[trigger] b.key() ==> a == b,
{
    assert forall|a: Route, b: Route| #[trigger] a.key() == #[trigger] b.key() implies a == b by {
        lemma_mark(a);
        lemma_mark(b);
    }
}

/// Every key of the tables goes to its own route and to no other, and a key
/// goes somewhere exactly when the tables hold it.
pub proof fn lemma_route_of(key: Seq<u8>)
    ensures
        route_of(key) is Some <==> recognized(key),
        forall|route: Route| #[trigger] route.key() == key ==> route_of(key) == Some(route),
        route_of(key) matches Some(route) ==> route.key() == key,
{
    lemma_routes_are_distinct();
    if recognized(key) {
        if key == clock_key() {
            assert(Route::Clock.key() == key);
        } else if exists|m: Model| key == #[trigger] m.key() {
            let m = choose|m: Model| key == #[trigger] m.key();
            assert(Route::Whole(m).key() == key);
        } else {
            let f = choose|f: Field| key == #[trigger] f.key();
            assert(Route::Single(f).key() == key);
        }
    }
    if route_of(key) is Some {
        let route = route_of(key)->0;
        match route {
            Route::Clock => {},
            Route::Whole(m) => {
                assert(key == m.key());
            },
            Route::Single(f) => {
                assert(key == f.key());
            },
        }
    }
}

/// Finds where `key` goes.
pub fn route(key: &[u8]) -> (found: Option<Route>)
    ensures
        found == route_of(key@),
{
    proof {
        lemma_route_of(key@);
        lemma_model_order();
        lemma_fields();
    }
    let clock = clock_key_bytes();
    if bytes_eq(key, clock.as_slice()) {
        assert(Route::Clock.key() == key@);
        return Some(Route::Clock);
    }
    let order = all_models();
    let mut i: usize = 0;
    while i < order.len()
        invariant
            i <= order@.len(),
            order@ == model_order(),
            key@ != clock_key(),
            forall|m: Model| #[trigger] m.index() < i ==> key@ != m.key(),
            forall|f: Field| #[trigger] f.model().index() < i ==> key@ != f.key(),
            forall|r: Route| #[trigger] r.key() == key@ ==> route_of(key@) == Some(r),
        decreases order.len() - i,
    {
        let model = order[i];
        proof {
            lemma_model_order();
            assert(order@[model.index() as int] == model);
            assert forall|m: Model| #[trigger] m.index() == i implies m == model by {
                assert(order@[m.index() as int] == m);
            }
        }
        let model_key = model.key_bytes();
        if bytes_eq(key, model_key.as_slice()) {
            assert(Route::Whole(model).key() == key@);
            return Some(Route::Whole(model));
        }
        let fields = model.field_list();
        let mut j: usize = 0;
        while j < fields.len()
            invariant
                j <= fields@.len(),
                fields@ == model.fields(),
                forall|k: int| 0 <= k < j ==> key@ != (#[trigger] fields@[k]).key(),
                forall|r: Route| #[trigger] r.key() == key@ ==> route_of(key@) == Some(r),
            decreases fields.len() - j,
        {
            let field = fields[j];
            let field_key = field.key_bytes();
            if bytes_eq(key, field_key.as_slice()) {
                assert(Route::Single(field).key() == key@);
                return Some(Route::Single(field));
            }
            j += 1;
        }
        proof {
            lemma_fields();
            assert forall|f: Field| #[trigger] f.model().index() < i + 1 implies key@
                != f.key() by {
                if f.model().index() == i {
                    assert(f.model() == model);
                    assert(fields@[f.index() as int] == f);
                }
            }
        }
        i += 1;
    }
    proof {
        lemma_model_order();
        assert forall|m: Model| key@ != #[trigger] m.key() by {
            assert(m.index() < MODEL_COUNT);
        }
        assert forall|f: Field| key@ != #[trigger] f.key() by {
            assert(f.model().index() < MODEL_COUNT);
        }
        assert(!recognized(key@));
    }
    None
}

/// Whether `key` is one that the tables hold.
pub fn is_recognized(key: &[u8]) -> (known: bool)
    ensures
        known == recognized(key@),
{
    proof {
        lemma_route_of(key@);
    }
    route(key).is_some()
}

/// The keys among `keys` that the tables do not hold, in order.
pub open spec fn unrecognized_of(keys: Seq<Seq<u8>>) -> Seq<Seq<u8>>
    decreases keys.len(),
{
    if keys.len() == 0 {
        Seq::<Seq<u8>>::empty()
    } else if recognized(keys.last()) {
        unrecognized_of(keys.drop_last())
    } else {
        unrecognized_of(keys.drop_last()).push(keys.last())
    }
}

/// The keys of a store that the tables do not hold, in the order of the
/// store. A merge passes them over; they are here for whoever wants to see
/// what the server sends beyond what the engine knows.
pub fn unparsed_keys(store: &KeyValueStore) -> (keys: Vec<Vec<u8>>)
    ensures
        views(keys@) == unrecognized_of(keys_of(store@)),
{
    let all = store.keys();
    let ghost names = keys_of(store@);
    let mut keys: Vec<Vec<u8>> = Vec::new();
    let mut i: usize = 0;
    assert(names.take(0) =~= Seq::<Seq<u8>>::empty());
    assert(views(keys@) =~= Seq::<Seq<u8>>::empty());
    while i < all.len()
        invariant
            i <= all@.len(),
            views(all@) == names,
            views(keys@) == unrecognized_of(names.take(i as int)),
        decreases all.len() - i,
    {
        let ghost next = names.take(i + 1);
        assert(next.drop_last() =~= names.take(i as int));
        assert(next.last() == all@[i as int]@);
        if !is_recognized(all[i].as_slice()) {
            let ghost before = views(keys@);
            keys.push(copy_bytes(all[i].as_slice()));
            assert(views(keys@) =~= before.push(all@[i as int]@));
        }
        i += 1;
    }
    assert(names.take(all@.len() as int) =~= names);
    keys
}

} // verus!
