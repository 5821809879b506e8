//! The parts of the game state and the keys that carry them.
//!
//! The game state is made of parts. Every part has a key under which the
//! server sends it as a whole, and most parts have fields, each with a key
//! of its own under which the server sends that field alone. These tables
//! are the whole of what the engine knows about keys: a key that is not in
//! them is not recognized.
//!
//! A part that is not a list is a record: its fields in the order given
//! here, each a 64-bit integer. The equipment is a list of items, each a
//! slot, an item and its level.

use vstd::prelude::*;
use vstd::string::*;

verus! {

/// How many numbers describe one item of a list part.
pub const ITEM_WIDTH: usize = 3;

/// How many parts the game state has.
pub const MODEL_COUNT: usize = 9;

/// A part of the game state.
#[derive(Clone, Copy, Debug, PartialEq, Eq, Structural)]
pub enum Model {
    /// The character itself.
    Character,
    /// What the character wears: a list of items, each a slot, an item and its level.
    Items,
    /// The tavern, with the quest or the guard duty under way.
    Tavern,
    /// The progress through the dungeons.
    Dungeons,
    /// The guild that the character belongs to.
    Guild,
    /// The relationships with other players.
    Social,
    /// The fortress.
    Fortress,
    /// The underworld beneath the fortress.
    Underworld,
    /// What the character has unlocked and collected.
    Unlockables,
}

/// A field of a part of the game state that the server can send alone.
#[derive(Clone, Copy, Debug, PartialEq, Eq, Structural)]
pub enum Field {
    /// The level of the character.
    CharacterLevel,
    /// The experience gathered on the current level.
    CharacterExperience,
    /// The silver in the purse.
    CharacterSilver,
    /// The mushrooms in the purse.
    CharacterMushrooms,
    /// The thirst for adventure that is left, in seconds.
    TavernThirst,
    /// The beers drunk today.
    TavernBeers,
    /// What the character is doing: 0 nothing, 1 a quest, 2 guard duty.
    TavernActivity,
    /// The server time at which the activity ends.
    TavernBusyUntil,
    /// The floors cleared in the light world.
    DungeonsLight,
    /// The floors cleared in the shadow world.
    DungeonsShadow,
    /// The floors cleared in the tower.
    DungeonsTower,
    /// The id of the guild.
    GuildIdent,
    /// The rank of the guild.
    GuildRank,
    /// The honor of the guild.
    GuildHonor,
    /// How many players are marked as friends.
    SocialFriends,
    /// How many players are ignored.
    SocialIgnored,
    /// The level of the fortress.
    FortressLevel,
    /// The wood in store.
    FortressWood,
    /// The stone in store.
    FortressStone,
    /// The level of the heart of darkness.
    UnderworldLevel,
    /// The souls in store.
    UnderworldSouls,
    /// The silver in store.
    UnderworldSilver,
    /// How many pets have been collected.
    UnlockablesPets,
    /// How many entries the scrapbook has.
    UnlockablesScrapbook,
    /// How many achievements have been earned.
    UnlockablesAchievements,
}

/// The key under which the server sends its own time.
pub open spec fn clock_key() -> Seq<u8> {
    "timestamp".spec_bytes()
}

/// The key under which the server sends its own time.
pub fn clock_key_bytes() -> (key: Vec<u8>)
    ensures
        key@ == clock_key(),
{
    "timestamp".as_bytes_vec()
}

/// The parts in the order in which a response is merged. When more than one
/// part of a response fails, the failure of the first one in this order is
/// the one reported.
pub open spec fn model_order() -> Seq<Model> {
    seq![
        Model::Character,
        Model::Items,
        Model::Tavern,
        Model::Dungeons,
        Model::Guild,
        Model::Social,
        Model::Fortress,
        Model::Underworld,
        Model::Unlockables,
    ]
}

/// The parts in the order in which a response is merged.
pub fn all_models() -> (models: Vec<Model>)
    ensures
        models@ == model_order(),
{
    let mut models: Vec<Model> = Vec::new();
    models.push(Model::Character);
    models.push(Model::Items);
    models.push(Model::Tavern);
    models.push(Model::Dungeons);
    models.push(Model::Guild);
    models.push(Model::Social);
    models.push(Model::Fortress);
    models.push(Model::Underworld);
    models.push(Model::Unlockables);
    assert(models@ =~= model_order());
    models
}

impl Model {
    /// The place of this part in the merge order.
    pub open spec fn index(self) -> nat {
        match self {
            Model::Character => 0,
            Model::Items => 1,
            Model::Tavern => 2,
            Model::Dungeons => 3,
            Model::Guild => 4,
            Model::Social => 5,
            Model::Fortress => 6,
            Model::Underworld => 7,
            Model::Unlockables => 8,
        }
    }

    /// The place of this part in the merge order.
    pub fn position(self) -> (index: usize)
        ensures
            index == self.index(),
    {
        match self {
            Model::Character => 0,
            Model::Items => 1,
            Model::Tavern => 2,
            Model::Dungeons => 3,
            Model::Guild => 4,
            Model::Social => 5,
            Model::Fortress => 6,
            Model::Underworld => 7,
            Model::Unlockables => 8,
        }
    }

    /// The key under which the server sends this part as a whole.
    pub open spec fn key(self) -> Seq<u8> {
        match self {
            Model::Character => "character".spec_bytes(),
            Model::Items => "equipment".spec_bytes(),
            Model::Tavern => "tavern".spec_bytes(),
            Model::Dungeons => "dungeons".spec_bytes(),
            Model::Guild => "guild".spec_bytes(),
            Model::Social => "social".spec_bytes(),
            Model::Fortress => "fortress".spec_bytes(),
            Model::Underworld => "underworld".spec_bytes(),
            Model::Unlockables => "unlockables".spec_bytes(),
        }
    }

    /// The key under which the server sends this part as a whole.
    pub fn key_bytes(self) -> (key: Vec<u8>)
        ensures
            key@ == self.key(),
    {
        let word = match self {
            Model::Character => "character",
            Model::Items => "equipment",
            Model::Tavern => "tavern",
            Model::Dungeons => "dungeons",
            Model::Guild => "guild",
            Model::Social => "social",
            Model::Fortress => "fortress",
            Model::Underworld => "underworld",
            Model::Unlockables => "unlockables",
        };
        word.as_bytes_vec()
    }

    /// Whether this part is a list of items rather than a record.
    pub open spec fn is_list(self) -> bool {
        self == Model::Items
    }

    /// Whether this part is a list of items rather than a record.
    pub fn holds_list(self) -> (list: bool)
        ensures
            list == self.is_list(),
    {
        match self {
            Model::Items => true,
            _ => false,
        }
    }

    /// The fields of this part, in the order of its record.
    pub open spec fn fields(self) -> Seq<Field> {
        match self {
            Model::Character => seq![
                Field::CharacterLevel,
                Field::CharacterExperience,
                Field::CharacterSilver,
                Field::CharacterMushrooms,
            ],
            Model::Items => Seq::<Field>::empty(),
            Model::Tavern => seq![
                Field::TavernThirst,
                Field::TavernBeers,
                Field::TavernActivity,
                Field::TavernBusyUntil,
            ],
            Model::Dungeons => seq![
                Field::DungeonsLight,
                Field::DungeonsShadow,
                Field::DungeonsTower,
            ],
            Model::Guild => seq![
                Field::GuildIdent,
                Field::GuildRank,
                Field::GuildHonor,
            ],
            Model::Social => seq![
                Field::SocialFriends,
                Field::SocialIgnored,
            ],
            Model::Fortress => seq![
                Field::FortressLevel,
                Field::FortressWood,
                Field::FortressStone,
            ],
            Model::Underworld => seq![
                Field::UnderworldLevel,
                Field::UnderworldSouls,
                Field::UnderworldSilver,
            ],
            Model::Unlockables => seq![
                Field::UnlockablesPets,
                Field::UnlockablesScrapbook,
                Field::UnlockablesAchievements,
            ],
        }
    }

    /// The fields of this part, in the order of its record.
    pub fn field_list(self) -> (fields: Vec<Field>)
        ensures
            fields@ == self.fields(),
    {
        let mut fields: Vec<Field> = Vec::new();
        match self {
            Model::Character => {
                fields.push(Field::CharacterLevel);
                fields.push(Field::CharacterExperience);
                fields.push(Field::CharacterSilver);
                fields.push(Field::CharacterMushrooms);
            },
            Model::Items => {},
            Model::Tavern => {
                fields.push(Field::TavernThirst);
                fields.push(Field::TavernBeers);
                fields.push(Field::TavernActivity);
                fields.push(Field::TavernBusyUntil);
            },
            Model::Dungeons => {
                fields.push(Field::DungeonsLight);
                fields.push(Field::DungeonsShadow);
                fields.push(Field::DungeonsTower);
            },
            Model::Guild => {
                fields.push(Field::GuildIdent);
                fields.push(Field::GuildRank);
                fields.push(Field::GuildHonor);
            },
            Model::Social => {
                fields.push(Field::SocialFriends);
                fields.push(Field::SocialIgnored);
            },
            Model::Fortress => {
                fields.push(Field::FortressLevel);
                fields.push(Field::FortressWood);
                fields.push(Field::FortressStone);
            },
            Model::Underworld => {
                fields.push(Field::UnderworldLevel);
                fields.push(Field::UnderworldSouls);
                fields.push(Field::UnderworldSilver);
            },
            Model::Unlockables => {
                fields.push(Field::UnlockablesPets);
                fields.push(Field::UnlockablesScrapbook);
                fields.push(Field::UnlockablesAchievements);
            },
        }
        assert(fields@ =~= self.fields());
        fields
    }
}

impl Field {
    /// The part that this field belongs to.
    pub open spec fn model(self) -> Model {
        match self {
            Field::CharacterLevel => Model::Character,
            Field::CharacterExperience => Model::Character,
            Field::CharacterSilver => Model::Character,
            Field::CharacterMushrooms => Model::Character,
            Field::TavernThirst => Model::Tavern,
            Field::TavernBeers => Model::Tavern,
            Field::TavernActivity => Model::Tavern,
            Field::TavernBusyUntil => Model::Tavern,
            Field::DungeonsLight => Model::Dungeons,
            Field::DungeonsShadow => Model::Dungeons,
            Field::DungeonsTower => Model::Dungeons,
            Field::GuildIdent => Model::Guild,
            Field::GuildRank => Model::Guild,
            Field::GuildHonor => Model::Guild,
            Field::SocialFriends => Model::Social,
            Field::SocialIgnored => Model::Social,
            Field::FortressLevel => Model::Fortress,
            Field::FortressWood => Model::Fortress,
            Field::FortressStone => Model::Fortress,
            Field::UnderworldLevel => Model::Underworld,
            Field::UnderworldSouls => Model::Underworld,
            Field::UnderworldSilver => Model::Underworld,
            Field::UnlockablesPets => Model::Unlockables,
            Field::UnlockablesScrapbook => Model::Unlockables,
            Field::UnlockablesAchievements => Model::Unlockables,
        }
    }

    /// The part that this field belongs to.
    pub fn owner(self) -> (model: Model)
        ensures
            model == self.model(),
    {
        match self {
            Field::CharacterLevel => Model::Character,
            Field::CharacterExperience => Model::Character,
            Field::CharacterSilver => Model::Character,
            Field::CharacterMushrooms => Model::Character,
            Field::TavernThirst => Model::Tavern,
            Field::TavernBeers => Model::Tavern,
            Field::TavernActivity => Model::Tavern,
            Field::TavernBusyUntil => Model::Tavern,
            Field::DungeonsLight => Model::Dungeons,
            Field::DungeonsShadow => Model::Dungeons,
            Field::DungeonsTower => Model::Dungeons,
            Field::GuildIdent => Model::Guild,
            Field::GuildRank => Model::Guild,
            Field::GuildHonor => Model::Guild,
            Field::SocialFriends => Model::Social,
            Field::SocialIgnored => Model::Social,
            Field::FortressLevel => Model::Fortress,
            Field::FortressWood => Model::Fortress,
            Field::FortressStone => Model::Fortress,
            Field::UnderworldLevel => Model::Underworld,
            Field::UnderworldSouls => Model::Underworld,
            Field::UnderworldSilver => Model::Underworld,
            Field::UnlockablesPets => Model::Unlockables,
            Field::UnlockablesScrapbook => Model::Unlockables,
            Field::UnlockablesAchievements => Model::Unlockables,
        }
    }

    /// The place of this field in the record of its part.
    pub open spec fn index(self) -> nat {
        match self {
            Field::CharacterLevel => 0,
            Field::CharacterExperience => 1,
            Field::CharacterSilver => 2,
            Field::CharacterMushrooms => 3,
            Field::TavernThirst => 0,
            Field::TavernBeers => 1,
            Field::TavernActivity => 2,
            Field::TavernBusyUntil => 3,
            Field::DungeonsLight => 0,
            Field::DungeonsShadow => 1,
            Field::DungeonsTower => 2,
            Field::GuildIdent => 0,
            Field::GuildRank => 1,
            Field::GuildHonor => 2,
            Field::SocialFriends => 0,
            Field::SocialIgnored => 1,
            Field::FortressLevel => 0,
            Field::FortressWood => 1,
            Field::FortressStone => 2,
            Field::UnderworldLevel => 0,
            Field::UnderworldSouls => 1,
            Field::UnderworldSilver => 2,
            Field::UnlockablesPets => 0,
            Field::UnlockablesScrapbook => 1,
            Field::UnlockablesAchievements => 2,
        }
    }

    /// The place of this field in the record of its part.
    pub fn position(self) -> (index: usize)
        ensures
            index == self.index(),
    {
        match self {
            Field::CharacterLevel => 0,
            Field::CharacterExperience => 1,
            Field::CharacterSilver => 2,
            Field::CharacterMushrooms => 3,
            Field::TavernThirst => 0,
            Field::TavernBeers => 1,
            Field::TavernActivity => 2,
            Field::TavernBusyUntil => 3,
            Field::DungeonsLight => 0,
            Field::DungeonsShadow => 1,
            Field::DungeonsTower => 2,
            Field::GuildIdent => 0,
            Field::GuildRank => 1,
            Field::GuildHonor => 2,
            Field::SocialFriends => 0,
            Field::SocialIgnored => 1,
            Field::FortressLevel => 0,
            Field::FortressWood => 1,
            Field::FortressStone => 2,
            Field::UnderworldLevel => 0,
            Field::UnderworldSouls => 1,
            Field::UnderworldSilver => 2,
            Field::UnlockablesPets => 0,
            Field::UnlockablesScrapbook => 1,
            Field::UnlockablesAchievements => 2,
        }
    }

    /// The key under which the server sends this field alone.
    pub open spec fn key(self) -> Seq<u8> {
        match self {
            Field::CharacterLevel => "character.level".spec_bytes(),
            Field::CharacterExperience => "character.experience".spec_bytes(),
            Field::CharacterSilver => "character.silver".spec_bytes(),
            Field::CharacterMushrooms => "character.mushrooms".spec_bytes(),
            Field::TavernThirst => "tavern.thirst".spec_bytes(),
            Field::TavernBeers => "tavern.beers".spec_bytes(),
            Field::TavernActivity => "tavern.activity".spec_bytes(),
            Field::TavernBusyUntil => "tavern.busy_until".spec_bytes(),
            Field::DungeonsLight => "dungeons.light".spec_bytes(),
            Field::DungeonsShadow => "dungeons.shadow".spec_bytes(),
            Field::DungeonsTower => "dungeons.tower".spec_bytes(),
            Field::GuildIdent => "guild.ident".spec_bytes(),
            Field::GuildRank => "guild.rank".spec_bytes(),
            Field::GuildHonor => "guild.honor".spec_bytes(),
            Field::SocialFriends => "social.friends".spec_bytes(),
            Field::SocialIgnored => "social.ignored".spec_bytes(),
            Field::FortressLevel => "fortress.level".spec_bytes(),
            Field::FortressWood => "fortress.wood".spec_bytes(),
            Field::FortressStone => "fortress.stone".spec_bytes(),
            Field::UnderworldLevel => "underworld.level".spec_bytes(),
            Field::UnderworldSouls => "underworld.souls".spec_bytes(),
            Field::UnderworldSilver => "underworld.silver".spec_bytes(),
            Field::UnlockablesPets => "unlockables.pets".spec_bytes(),
            Field::UnlockablesScrapbook => "unlockables.scrapbook".spec_bytes(),
            Field::UnlockablesAchievements => "unlockables.achievements".spec_bytes(),
        }
    }

    /// The key under which the server sends this field alone.
    pub fn key_bytes(self) -> (key: Vec<u8>)
        ensures
            key@ == self.key(),
    {
        let word = match self {
            Field::CharacterLevel => "character.level",
            Field::CharacterExperience => "character.experience",
            Field::CharacterSilver => "character.silver",
            Field::CharacterMushrooms => "character.mushrooms",
            Field::TavernThirst => "tavern.thirst",
            Field::TavernBeers => "tavern.beers",
            Field::TavernActivity => "tavern.activity",
            Field::TavernBusyUntil => "tavern.busy_until",
            Field::DungeonsLight => "dungeons.light",
            Field::DungeonsShadow => "dungeons.shadow",
            Field::DungeonsTower => "dungeons.tower",
            Field::GuildIdent => "guild.ident",
            Field::GuildRank => "guild.rank",
            Field::GuildHonor => "guild.honor",
            Field::SocialFriends => "social.friends",
            Field::SocialIgnored => "social.ignored",
            Field::FortressLevel => "fortress.level",
            Field::FortressWood => "fortress.wood",
            Field::FortressStone => "fortress.stone",
            Field::UnderworldLevel => "underworld.level",
            Field::UnderworldSouls => "underworld.souls",
            Field::UnderworldSilver => "underworld.silver",
            Field::UnlockablesPets => "unlockables.pets",
            Field::UnlockablesScrapbook => "unlockables.scrapbook",
            Field::UnlockablesAchievements => "unlockables.achievements",
        };
        word.as_bytes_vec()
    }
}

/// Whether `key` is one that the tables hold: the key of the clock, of a
/// part, or of a field.
pub open spec fn recognized(key: Seq<u8>) -> bool {
    ||| key == clock_key()
    ||| exists|m: Model| key == #[trigger] m.key()
    ||| exists|f: Field| key == #[trigger] f.key()
}

/// The merge order holds every part once, at the place that its index
/// names.
pub proof fn lemma_model_order()
    ensures
        model_order().len() == MODEL_COUNT,
        forall|m: Model|
            #[trigger] m.index() < MODEL_COUNT && model_order()[m.index() as int] == m,
{
}

/// The fields of a part belong to it and stand at the place that their
/// index names; every field is among the fields of its part.
pub proof fn lemma_fields()
    ensures
        forall|m: Model, i: int|
            0 <= i < m.fields().len() ==> (#[trigger] m.fields()[i]).model() == m
                && m.fields()[i].index() == i,
        forall|f: Field|
            #[trigger] f.index() < f.model().fields().len() && f.model().fields()[f.index() as int]
                == f,
        forall|m: Model| m.is_list() ==> #[trigger] m.fields().len() == 0,
{
    assert forall|m: Model, i: int| 0 <= i < m.fields().len() implies (
    #[trigger] m.fields()[i]).model() == m && m.fields()[i].index() == i by {
        match m {
            Model::Character => {},
            Model::Items => {},
            Model::Tavern => {},
            Model::Dungeons => {},
            Model::Guild => {},
            Model::Social => {},
            Model::Fortress => {},
            Model::Underworld => {},
            Model::Unlockables => {},
        }
    }
}

} // verus!
