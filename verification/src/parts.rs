//! The parts of the game state as records with named fields.
//!
//! The state keeps each part as a row of numbers. The types here give the
//! numbers of a part their names, for whoever reads a state.

use vstd::prelude::*;
use crate::model::{Model, ITEM_WIDTH};
use crate::state::{part_of, GameState};

verus! {

/// The character itself.
#[derive(Clone, Copy, Debug, PartialEq, Eq, Structural)]
pub struct Character {
    /// The level of the character.
    pub level: i64,
    /// The experience gathered on the current level.
    pub experience: i64,
    /// The silver in the purse.
    pub silver: i64,
    /// The mushrooms in the purse.
    pub mushrooms: i64,
}

/// The tavern, with the quest or the guard duty under way.
#[derive(Clone, Copy, Debug, PartialEq, Eq, Structural)]
pub struct Tavern {
    /// The thirst for adventure that is left, in seconds.
    pub thirst: i64,
    /// The beers drunk today.
    pub beers: i64,
    /// What the character is doing: 0 nothing, 1 a quest, 2 guard duty.
    pub activity: i64,
    /// The server time at which the activity ends.
    pub busy_until: i64,
}

/// The progress through the dungeons.
#[derive(Clone, Copy, Debug, PartialEq, Eq, Structural)]
pub struct Dungeons {
    /// The floors cleared in the light world.
    pub light: i64,
    /// The floors cleared in the shadow world.
    pub shadow: i64,
    /// The floors cleared in the tower.
    pub tower: i64,
}

/// The guild that the character belongs to.
#[derive(Clone, Copy, Debug, PartialEq, Eq, Structural)]
pub struct Guild {
    /// The id of the guild.
    pub ident: i64,
    /// The rank of the guild.
    pub rank: i64,
    /// The honor of the guild.
    pub honor: i64,
}

/// The relationships with other players.
#[derive(Clone, Copy, Debug, PartialEq, Eq, Structural)]
pub struct Social {
    /// How many players are marked as friends.
    pub friends: i64,
    /// How many players are ignored.
    pub ignored: i64,
}

/// The fortress.
#[derive(Clone, Copy, Debug, PartialEq, Eq, Structural)]
pub struct Fortress {
    /// The level of the fortress.
    pub level: i64,
    /// The wood in store.
    pub wood: i64,
    /// The stone in store.
    pub stone: i64,
}

/// The underworld beneath the fortress.
#[derive(Clone, Copy, Debug, PartialEq, Eq, Structural)]
pub struct Underworld {
    /// The level of the heart of darkness.
    pub level: i64,
    /// The souls in store.
    pub souls: i64,
    /// The silver in store.
    pub silver: i64,
}

/// What the character has unlocked and collected.
#[derive(Clone, Copy, Debug, PartialEq, Eq, Structural)]
pub struct Unlockables {
    /// How many pets have been collected.
    pub pets: i64,
    /// How many entries the scrapbook has.
    pub scrapbook: i64,
    /// How many achievements have been earned.
    pub achievements: i64,
}

/// One item that the character wears.
#[derive(Clone, Copy, Debug, PartialEq, Eq, Structural)]
pub struct Item {
    /// The slot that the item is worn in.
    pub slot: i64,
    /// Which item it is.
    pub ident: i64,
    /// The level of the item.
    pub level: i64,
}

/// The numbers of the part `Character` under their names.
pub open spec fn character_of(record: Seq<i64>) -> Character {
    Character {
        level: record[0],
        experience: record[1],
        silver: record[2],
        mushrooms: record[3],
    }
}

/// The numbers of the part `Tavern` under their names.
pub open spec fn tavern_of(record: Seq<i64>) -> Tavern {
    Tavern {
        thirst: record[0],
        beers: record[1],
        activity: record[2],
        busy_until: record[3],
    }
}

/// The numbers of the part `Dungeons` under their names.
pub open spec fn dungeons_of(record: Seq<i64>) -> Dungeons {
    Dungeons {
        light: record[0],
        shadow: record[1],
        tower: record[2],
    }
}

/// The numbers of the part `Guild` under their names.
pub open spec fn guild_of(record: Seq<i64>) -> Guild {
    Guild {
        ident: record[0],
        rank: record[1],
        honor: record[2],
    }
}

/// The numbers of the part `Social` under their names.
pub open spec fn social_of(record: Seq<i64>) -> Social {
    Social {
        friends: record[0],
        ignored: record[1],
    }
}

/// The numbers of the part `Fortress` under their names.
pub open spec fn fortress_of(record: Seq<i64>) -> Fortress {
    Fortress {
        level: record[0],
        wood: record[1],
        stone: record[2],
    }
}

/// The numbers of the part `Underworld` under their names.
pub open spec fn underworld_of(record: Seq<i64>) -> Underworld {
    Underworld {
        level: record[0],
        souls: record[1],
        silver: record[2],
    }
}

/// The numbers of the part `Unlockables` under their names.
pub open spec fn unlockables_of(record: Seq<i64>) -> Unlockables {
    Unlockables {
        pets: record[0],
        scrapbook: record[1],
        achievements: record[2],
    }
}

/// The items that a row of numbers describes, three numbers to an item.
pub open spec fn items_of(record: Seq<i64>) -> Seq<Item> {
    Seq::new(
        record.len() / (ITEM_WIDTH as nat),
        |i: int| Item { slot: record[3 * i], ident: record[3 * i + 1], level: record[3 * i + 2] },
    )
}

impl GameState {
    /// The part `Character`, if it is there.
    pub fn character(&self) -> (part: Option<Character>)
        ensures
            part == match part_of(self@, Model::Character) {
                Some(record) => Some(character_of(record)),
                None => None,
            },
    {
        match self.record(Model::Character) {
            Some(record) => Some(
                Character {
                    level: record[0],
                    experience: record[1],
                    silver: record[2],
                    mushrooms: record[3],
                },
            ),
            None => None,
        }
    }

    /// The part `Tavern`, if it is there.
    pub fn tavern(&self) -> (part: Option<Tavern>)
        ensures
            part == match part_of(self@, Model::Tavern) {
                Some(record) => Some(tavern_of(record)),
                None => None,
            },
    {
        match self.record(Model::Tavern) {
            Some(record) => Some(
                Tavern {
                    thirst: record[0],
                    beers: record[1],
                    activity: record[2],
                    busy_until: record[3],
                },
            ),
            None => None,
        }
    }

    /// The part `Dungeons`, if it is there.
    pub fn dungeons(&self) -> (part: Option<Dungeons>)
        ensures
            part == match part_of(self@, Model::Dungeons) {
                Some(record) => Some(dungeons_of(record)),
                None => None,
            },
    {
        match self.record(Model::Dungeons) {
            Some(record) => Some(
                Dungeons {
                    light: record[0],
                    shadow: record[1],
                    tower: record[2],
                },
            ),
            None => None,
        }
    }

    /// The part `Guild`, if it is there.
    pub fn guild(&self) -> (part: Option<Guild>)
        ensures
            part == match part_of(self@, Model::Guild) {
                Some(record) => Some(guild_of(record)),
                None => None,
            },
    {
        match self.record(Model::Guild) {
            Some(record) => Some(
                Guild {
                    ident: record[0],
                    rank: record[1],
                    honor: record[2],
                },
            ),
            None => None,
        }
    }

    /// The part `Social`, if it is there.
    pub fn social(&self) -> (part: Option<Social>)
        ensures
            part == match part_of(self@, Model::Social) {
                Some(record) => Some(social_of(record)),
                None => None,
            },
    {
        match self.record(Model::Social) {
            Some(record) => Some(
                Social {
                    friends: record[0],
                    ignored: record[1],
                },
            ),
            None => None,
        }
    }

    /// The part `Fortress`, if it is there.
    pub fn fortress(&self) -> (part: Option<Fortress>)
        ensures
            part == match part_of(self@, Model::Fortress) {
                Some(record) => Some(fortress_of(record)),
                None => None,
            },
    {
        match self.record(Model::Fortress) {
            Some(record) => Some(
                Fortress {
                    level: record[0],
                    wood: record[1],
                    stone: record[2],
                },
            ),
            None => None,
        }
    }

    /// The part `Underworld`, if it is there.
    pub fn underworld(&self) -> (part: Option<Underworld>)
        ensures
            part == match part_of(self@, Model::Underworld) {
                Some(record) => Some(underworld_of(record)),
                None => None,
            },
    {
        match self.record(Model::Underworld) {
            Some(record) => Some(
                Underworld {
                    level: record[0],
                    souls: record[1],
                    silver: record[2],
                },
            ),
            None => None,
        }
    }

    /// The part `Unlockables`, if it is there.
    pub fn unlockables(&self) -> (part: Option<Unlockables>)
        ensures
            part == match part_of(self@, Model::Unlockables) {
                Some(record) => Some(unlockables_of(record)),
                None => None,
            },
    {
        match self.record(Model::Unlockables) {
            Some(record) => Some(
                Unlockables {
                    pets: record[0],
                    scrapbook: record[1],
                    achievements: record[2],
                },
            ),
            None => None,
        }
    }

    /// The items that the character wears, if the equipment is there.
    pub fn items(&self) -> (part: Option<Vec<Item>>)
        ensures
            match part {
                Some(items) => part_of(self@, Model::Items) is Some && items@ == items_of(
                    part_of(self@, Model::Items)->0,
                ),
                None => part_of(self@, Model::Items) is None,
            },
    {
        match self.record(Model::Items) {
            Some(record) => {
                let count = record.len() / ITEM_WIDTH;
                assert(3 * count == record@.len());
                let mut items: Vec<Item> = Vec::new();
                let mut i: usize = 0;
                while i < count
                    invariant
                        i <= count,
                        3 * count == record@.len(),
                        record@.len() <= usize::MAX,
                        items_of(record@).len() == count,
                        items@ == items_of(record@).take(i as int),
                    decreases count - i,
                {
                    let item = Item {
                        slot: record[3 * i],
                        ident: record[3 * i + 1],
                        level: record[3 * i + 2],
                    };
                    items.push(item);
                    assert(items_of(record@).take(i + 1) =~= items_of(record@).take(i as int).push(
                        item,
                    ));
                    i += 1;
                }
                assert(items_of(record@).take(count as int) =~= items_of(record@));
                Some(items)
            },
            None => None,
        }
    }
}

} // verus!
