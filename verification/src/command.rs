//! The commands that a player can send, and the enumerations that their
//! arguments are taken from.
//!
//! Every enumeration has a fixed table of numeric codes, the ones that the
//! server assigns. A code that is not in the table names nothing: reading it
//! fails, and no member stands in for it.

use vstd::prelude::*;
use crate::error::EncodeError;

verus! {

/// How the rest of a waiting time is skipped.
#[derive(Clone, Copy, Debug, PartialEq, Eq, Structural)]
pub enum TimeSkip {
    /// Pay a mushroom.
    Mushroom,
    /// Use up an hourglass.
    Glass,
}

impl TimeSkip {
    /// The code that the server knows this way of skipping by.
    pub open spec fn code(self) -> u8 {
        match self {
            TimeSkip::Mushroom => 1,
            TimeSkip::Glass => 2,
        }
    }

    /// The code that the server knows this way of skipping by.
    pub fn to_code(self) -> (code: u8)
        ensures
            code == self.code(),
    {
        match self {
            TimeSkip::Mushroom => 1,
            TimeSkip::Glass => 2,
        }
    }

    /// The way of skipping that `code` names. A code that names none is refused.
    pub fn from_code(code: u8) -> (found: Result<TimeSkip, EncodeError>)
        ensures
            match found {
                Ok(member) => member.code() == code,
                Err(e) => e == EncodeError::InvalidArgument && forall|member: TimeSkip|
                    #[trigger] member.code() != code,
            },
    {
        if code == 1 {
            Ok(TimeSkip::Mushroom)
        } else if code == 2 {
            Ok(TimeSkip::Glass)
        } else {
            Err(EncodeError::InvalidArgument)
        }
    }
}

/// A mount that the stable sells.
#[derive(Clone, Copy, Debug, PartialEq, Eq, Structural)]
pub enum Mount {
    /// The cheapest mount.
    Cow,
    /// A mount for travellers in some hurry.
    Horse,
    /// A fast mount.
    Tiger,
    /// The fastest mount.
    Dragon,
}

impl Mount {
    /// The code that the server knows this mount by.
    pub open spec fn code(self) -> u8 {
        match self {
            Mount::Cow => 1,
            Mount::Horse => 2,
            Mount::Tiger => 3,
            Mount::Dragon => 4,
        }
    }

    /// The code that the server knows this mount by.
    pub fn to_code(self) -> (code: u8)
        ensures
            code == self.code(),
    {
        match self {
            Mount::Cow => 1,
            Mount::Horse => 2,
            Mount::Tiger => 3,
            Mount::Dragon => 4,
        }
    }

    /// The mount that `code` names. A code that names none is refused.
    pub fn from_code(code: u8) -> (found: Result<Mount, EncodeError>)
        ensures
            match found {
                Ok(member) => member.code() == code,
                Err(e) => e == EncodeError::InvalidArgument && forall|member: Mount|
                    #[trigger] member.code() != code,
            },
    {
        if code == 1 {
            Ok(Mount::Cow)
        } else if code == 2 {
            Ok(Mount::Horse)
        } else if code == 3 {
            Ok(Mount::Tiger)
        } else if code == 4 {
            Ok(Mount::Dragon)
        } else {
            Err(EncodeError::InvalidArgument)
        }
    }
}

/// An attribute of the character that can be trained.
#[derive(Clone, Copy, Debug, PartialEq, Eq, Structural)]
pub enum AttributeType {
    /// Strength.
    Strength,
    /// Dexterity.
    Dexterity,
    /// Intelligence.
    Intelligence,
    /// Constitution.
    Constitution,
    /// Luck.
    Luck,
}

impl AttributeType {
    /// The code that the server knows this attribute by.
    pub open spec fn code(self) -> u8 {
        match self {
            AttributeType::Strength => 1,
            AttributeType::Dexterity => 2,
            AttributeType::Intelligence => 3,
            AttributeType::Constitution => 4,
            AttributeType::Luck => 5,
        }
    }

    /// The code that the server knows this attribute by.
    pub fn to_code(self) -> (code: u8)
        ensures
            code == self.code(),
    {
        match self {
            AttributeType::Strength => 1,
            AttributeType::Dexterity => 2,
            AttributeType::Intelligence => 3,
            AttributeType::Constitution => 4,
            AttributeType::Luck => 5,
        }
    }

    /// The attribute that `code` names. A code that names none is refused.
    pub fn from_code(code: u8) -> (found: Result<AttributeType, EncodeError>)
        ensures
            match found {
                Ok(member) => member.code() == code,
                Err(e) => e == EncodeError::InvalidArgument && forall|member: AttributeType|
                    #[trigger] member.code() != code,
            },
    {
        if code == 1 {
            Ok(AttributeType::Strength)
        } else if code == 2 {
            Ok(AttributeType::Dexterity)
        } else if code == 3 {
            Ok(AttributeType::Intelligence)
        } else if code == 4 {
            Ok(AttributeType::Constitution)
        } else if code == 5 {
            Ok(AttributeType::Luck)
        } else {
            Err(EncodeError::InvalidArgument)
        }
    }
}

/// A skill that a guild can raise with its funds.
#[derive(Clone, Copy, Debug, PartialEq, Eq, Structural)]
pub enum GuildSkill {
    /// More gold from quests.
    Treasure,
    /// More experience from quests.
    Instructor,
    /// A stronger guild pet.
    Pet,
}

impl GuildSkill {
    /// The code that the server knows this skill by.
    pub open spec fn code(self) -> u8 {
        match self {
            GuildSkill::Treasure => 0,
            GuildSkill::Instructor => 1,
            GuildSkill::Pet => 2,
        }
    }

    /// The code that the server knows this skill by.
    pub fn to_code(self) -> (code: u8)
        ensures
            code == self.code(),
    {
        match self {
            GuildSkill::Treasure => 0,
            GuildSkill::Instructor => 1,
            GuildSkill::Pet => 2,
        }
    }

    /// The skill that `code` names. A code that names none is refused.
    pub fn from_code(code: u8) -> (found: Result<GuildSkill, EncodeError>)
        ensures
            match found {
                Ok(member) => member.code() == code,
                Err(e) => e == EncodeError::InvalidArgument && forall|member: GuildSkill|
                    #[trigger] member.code() != code,
            },
    {
        if code == 0 {
            Ok(GuildSkill::Treasure)
        } else if code == 1 {
            Ok(GuildSkill::Instructor)
        } else if code == 2 {
            Ok(GuildSkill::Pet)
        } else {
            Err(EncodeError::InvalidArgument)
        }
    }
}

/// A container of the player that holds items.
#[derive(Clone, Copy, Debug, PartialEq, Eq, Structural)]
pub enum PlayerItemPlace {
    /// What the character wears.
    Equipment,
    /// The backpack.
    MainInventory,
    /// The extension of the backpack.
    ExtendedInventory,
}

impl PlayerItemPlace {
    /// The code that the server knows this container by.
    pub open spec fn code(self) -> u8 {
        match self {
            PlayerItemPlace::Equipment => 1,
            PlayerItemPlace::MainInventory => 2,
            PlayerItemPlace::ExtendedInventory => 5,
        }
    }

    /// The code that the server knows this container by.
    pub fn to_code(self) -> (code: u8)
        ensures
            code == self.code(),
    {
        match self {
            PlayerItemPlace::Equipment => 1,
            PlayerItemPlace::MainInventory => 2,
            PlayerItemPlace::ExtendedInventory => 5,
        }
    }

    /// The container that `code` names. A code that names none is refused.
    pub fn from_code(code: u8) -> (found: Result<PlayerItemPlace, EncodeError>)
        ensures
            match found {
                Ok(member) => member.code() == code,
                Err(e) => e == EncodeError::InvalidArgument && forall|member: PlayerItemPlace|
                    #[trigger] member.code() != code,
            },
    {
        if code == 1 {
            Ok(PlayerItemPlace::Equipment)
        } else if code == 2 {
            Ok(PlayerItemPlace::MainInventory)
        } else if code == 5 {
            Ok(PlayerItemPlace::ExtendedInventory)
        } else {
            Err(EncodeError::InvalidArgument)
        }
    }
}

/// A feature that is unlocked once the character qualifies.
#[derive(Clone, Copy, Debug, PartialEq, Eq, Structural)]
pub enum Unlockable {
    /// The dungeons.
    Dungeons,
    /// The pets.
    Pets,
    /// The fortress.
    Fortress,
    /// The underworld.
    Underworld,
    /// The blacksmith.
    Blacksmith,
    /// The witch and her cauldron.
    WitchCauldron,
}

impl Unlockable {
    /// The code that the server knows this feature by.
    pub open spec fn code(self) -> u8 {
        match self {
            Unlockable::Dungeons => 1,
            Unlockable::Pets => 2,
            Unlockable::Fortress => 3,
            Unlockable::Underworld => 4,
            Unlockable::Blacksmith => 5,
            Unlockable::WitchCauldron => 6,
        }
    }

    /// The code that the server knows this feature by.
    pub fn to_code(self) -> (code: u8)
        ensures
            code == self.code(),
    {
        match self {
            Unlockable::Dungeons => 1,
            Unlockable::Pets => 2,
            Unlockable::Fortress => 3,
            Unlockable::Underworld => 4,
            Unlockable::Blacksmith => 5,
            Unlockable::WitchCauldron => 6,
        }
    }

    /// The feature that `code` names. A code that names none is refused.
    pub fn from_code(code: u8) -> (found: Result<Unlockable, EncodeError>)
        ensures
            match found {
                Ok(member) => member.code() == code,
                Err(e) => e == EncodeError::InvalidArgument && forall|member: Unlockable|
                    #[trigger] member.code() != code,
            },
    {
        if code == 1 {
            Ok(Unlockable::Dungeons)
        } else if code == 2 {
            Ok(Unlockable::Pets)
        } else if code == 3 {
            Ok(Unlockable::Fortress)
        } else if code == 4 {
            Ok(Unlockable::Underworld)
        } else if code == 5 {
            Ok(Unlockable::Blacksmith)
        } else if code == 6 {
            Ok(Unlockable::WitchCauldron)
        } else {
            Err(EncodeError::InvalidArgument)
        }
    }
}

/// How a turn of the wheel of fortune is paid.
#[derive(Clone, Copy, Debug, PartialEq, Eq, Structural)]
pub enum FortunePayment {
    /// Pay with lucky coins.
    LuckyCoins,
    /// Pay with mushrooms.
    Mushrooms,
    /// Use the free turn of the day.
    FreeTurn,
}

impl FortunePayment {
    /// The code that the server knows this payment by.
    pub open spec fn code(self) -> u8 {
        match self {
            FortunePayment::LuckyCoins => 0,
            FortunePayment::Mushrooms => 1,
            FortunePayment::FreeTurn => 2,
        }
    }

    /// The code that the server knows this payment by.
    pub fn to_code(self) -> (code: u8)
        ensures
            code == self.code(),
    {
        match self {
            FortunePayment::LuckyCoins => 0,
            FortunePayment::Mushrooms => 1,
            FortunePayment::FreeTurn => 2,
        }
    }

    /// The payment that `code` names. A code that names none is refused.
    pub fn from_code(code: u8) -> (found: Result<FortunePayment, EncodeError>)
        ensures
            match found {
                Ok(member) => member.code() == code,
                Err(e) => e == EncodeError::InvalidArgument && forall|member: FortunePayment|
                    #[trigger] member.code() != code,
            },
    {
        if code == 0 {
            Ok(FortunePayment::LuckyCoins)
        } else if code == 1 {
            Ok(FortunePayment::Mushrooms)
        } else if code == 2 {
            Ok(FortunePayment::FreeTurn)
        } else {
            Err(EncodeError::InvalidArgument)
        }
    }
}

/// A building of the fortress.
#[derive(Clone, Copy, Debug, PartialEq, Eq, Structural)]
pub enum FortressBuildingType {
    /// The fortress itself.
    Fortress,
    /// The quarters of the laborers.
    LaborersQuarters,
    /// The hut of the woodcutters.
    WoodcuttersHut,
    /// The quarry.
    Quarry,
    /// The gem mine.
    GemMine,
    /// The academy.
    Academy,
    /// The guild of the archers.
    ArcheryGuild,
    /// The barracks.
    Barracks,
    /// The tower of the mages.
    MagesTower,
    /// The treasury.
    Treasury,
    /// The smithy.
    Smithy,
    /// The fortifications.
    Wall,
}

impl FortressBuildingType {
    /// The code that the server knows this building by.
    pub open spec fn code(self) -> u8 {
        match self {
            FortressBuildingType::Fortress => 1,
            FortressBuildingType::LaborersQuarters => 2,
            FortressBuildingType::WoodcuttersHut => 3,
            FortressBuildingType::Quarry => 4,
            FortressBuildingType::GemMine => 5,
            FortressBuildingType::Academy => 6,
            FortressBuildingType::ArcheryGuild => 7,
            FortressBuildingType::Barracks => 8,
            FortressBuildingType::MagesTower => 9,
            FortressBuildingType::Treasury => 10,
            FortressBuildingType::Smithy => 11,
            FortressBuildingType::Wall => 12,
        }
    }

    /// The code that the server knows this building by.
    pub fn to_code(self) -> (code: u8)
        ensures
            code == self.code(),
    {
        match self {
            FortressBuildingType::Fortress => 1,
            FortressBuildingType::LaborersQuarters => 2,
            FortressBuildingType::WoodcuttersHut => 3,
            FortressBuildingType::Quarry => 4,
            FortressBuildingType::GemMine => 5,
            FortressBuildingType::Academy => 6,
            FortressBuildingType::ArcheryGuild => 7,
            FortressBuildingType::Barracks => 8,
            FortressBuildingType::MagesTower => 9,
            FortressBuildingType::Treasury => 10,
            FortressBuildingType::Smithy => 11,
            FortressBuildingType::Wall => 12,
        }
    }

    /// The building that `code` names. A code that names none is refused.
    pub fn from_code(code: u8) -> (found: Result<FortressBuildingType, EncodeError>)
        ensures
            match found {
                Ok(member) => member.code() == code,
                Err(e) => e == EncodeError::InvalidArgument && forall|member: FortressBuildingType|
                    #[trigger] member.code() != code,
            },
    {
        if code == 1 {
            Ok(FortressBuildingType::Fortress)
        } else if code == 2 {
            Ok(FortressBuildingType::LaborersQuarters)
        } else if code == 3 {
            Ok(FortressBuildingType::WoodcuttersHut)
        } else if code == 4 {
            Ok(FortressBuildingType::Quarry)
        } else if code == 5 {
            Ok(FortressBuildingType::GemMine)
        } else if code == 6 {
            Ok(FortressBuildingType::Academy)
        } else if code == 7 {
            Ok(FortressBuildingType::ArcheryGuild)
        } else if code == 8 {
            Ok(FortressBuildingType::Barracks)
        } else if code == 9 {
            Ok(FortressBuildingType::MagesTower)
        } else if code == 10 {
            Ok(FortressBuildingType::Treasury)
        } else if code == 11 {
            Ok(FortressBuildingType::Smithy)
        } else if code == 12 {
            Ok(FortressBuildingType::Wall)
        } else {
            Err(EncodeError::InvalidArgument)
        }
    }
}

/// A resource that the fortress produces.
#[derive(Clone, Copy, Debug, PartialEq, Eq, Structural)]
pub enum FortressResourceType {
    /// Wood.
    Wood,
    /// Stone.
    Stone,
    /// Experience.
    Experience,
}

impl FortressResourceType {
    /// The code that the server knows this resource by.
    pub open spec fn code(self) -> u8 {
        match self {
            FortressResourceType::Wood => 1,
            FortressResourceType::Stone => 2,
            FortressResourceType::Experience => 3,
        }
    }

    /// The code that the server knows this resource by.
    pub fn to_code(self) -> (code: u8)
        ensures
            code == self.code(),
    {
        match self {
            FortressResourceType::Wood => 1,
            FortressResourceType::Stone => 2,
            FortressResourceType::Experience => 3,
        }
    }

    /// The resource that `code` names. A code that names none is refused.
    pub fn from_code(code: u8) -> (found: Result<FortressResourceType, EncodeError>)
        ensures
            match found {
                Ok(member) => member.code() == code,
                Err(e) => e == EncodeError::InvalidArgument && forall|member: FortressResourceType|
                    #[trigger] member.code() != code,
            },
    {
        if code == 1 {
            Ok(FortressResourceType::Wood)
        } else if code == 2 {
            Ok(FortressResourceType::Stone)
        } else if code == 3 {
            Ok(FortressResourceType::Experience)
        } else {
            Err(EncodeError::InvalidArgument)
        }
    }
}

/// A unit that the fortress trains.
#[derive(Clone, Copy, Debug, PartialEq, Eq, Structural)]
pub enum FortressUnitType {
    /// Soldiers, who attack.
    Soldier,
    /// Magicians, who defend.
    Magician,
    /// Archers, who defend.
    Archer,
}

impl FortressUnitType {
    /// The code that the server knows this unit by.
    pub open spec fn code(self) -> u8 {
        match self {
            FortressUnitType::Soldier => 1,
            FortressUnitType::Magician => 2,
            FortressUnitType::Archer => 3,
        }
    }

    /// The code that the server knows this unit by.
    pub fn to_code(self) -> (code: u8)
        ensures
            code == self.code(),
    {
        match self {
            FortressUnitType::Soldier => 1,
            FortressUnitType::Magician => 2,
            FortressUnitType::Archer => 3,
        }
    }

    /// The unit that `code` names. A code that names none is refused.
    pub fn from_code(code: u8) -> (found: Result<FortressUnitType, EncodeError>)
        ensures
            match found {
                Ok(member) => member.code() == code,
                Err(e) => e == EncodeError::InvalidArgument && forall|member: FortressUnitType|
                    #[trigger] member.code() != code,
            },
    {
        if code == 1 {
            Ok(FortressUnitType::Soldier)
        } else if code == 2 {
            Ok(FortressUnitType::Magician)
        } else if code == 3 {
            Ok(FortressUnitType::Archer)
        } else {
            Err(EncodeError::InvalidArgument)
        }
    }
}

/// A building of the underworld.
#[derive(Clone, Copy, Debug, PartialEq, Eq, Structural)]
pub enum UnderworldBuildingType {
    /// The heart of darkness.
    HeartOfDarkness,
    /// The way in.
    Gate,
    /// The gold pit.
    GoldPit,
    /// The soul extractor.
    SoulExtractor,
    /// The goblin pit.
    GoblinPit,
    /// The torture chamber.
    TortureChamber,
    /// The trainer of the gladiators.
    GladiatorTrainer,
    /// The troll block.
    TrollBlock,
    /// The adventuromatic.
    Adventuromatic,
    /// The keeper.
    Keeper,
}

impl UnderworldBuildingType {
    /// The code that the server knows this building by.
    pub open spec fn code(self) -> u8 {
        match self {
            UnderworldBuildingType::HeartOfDarkness => 1,
            UnderworldBuildingType::Gate => 2,
            UnderworldBuildingType::GoldPit => 3,
            UnderworldBuildingType::SoulExtractor => 4,
            UnderworldBuildingType::GoblinPit => 5,
            UnderworldBuildingType::TortureChamber => 6,
            UnderworldBuildingType::GladiatorTrainer => 7,
            UnderworldBuildingType::TrollBlock => 8,
            UnderworldBuildingType::Adventuromatic => 9,
            UnderworldBuildingType::Keeper => 10,
        }
    }

    /// The code that the server knows this building by.
    pub fn to_code(self) -> (code: u8)
        ensures
            code == self.code(),
    {
        match self {
            UnderworldBuildingType::HeartOfDarkness => 1,
            UnderworldBuildingType::Gate => 2,
            UnderworldBuildingType::GoldPit => 3,
            UnderworldBuildingType::SoulExtractor => 4,
            UnderworldBuildingType::GoblinPit => 5,
            UnderworldBuildingType::TortureChamber => 6,
            UnderworldBuildingType::GladiatorTrainer => 7,
            UnderworldBuildingType::TrollBlock => 8,
            UnderworldBuildingType::Adventuromatic => 9,
            UnderworldBuildingType::Keeper => 10,
        }
    }

    /// The building that `code` names. A code that names none is refused.
    pub fn from_code(code: u8) -> (found: Result<UnderworldBuildingType, EncodeError>)
        ensures
            match found {
                Ok(member) => member.code() == code,
                Err(e) => e == EncodeError::InvalidArgument && forall|member: UnderworldBuildingType|
                    #[trigger] member.code() != code,
            },
    {
        if code == 1 {
            Ok(UnderworldBuildingType::HeartOfDarkness)
        } else if code == 2 {
            Ok(UnderworldBuildingType::Gate)
        } else if code == 3 {
            Ok(UnderworldBuildingType::GoldPit)
        } else if code == 4 {
            Ok(UnderworldBuildingType::SoulExtractor)
        } else if code == 5 {
            Ok(UnderworldBuildingType::GoblinPit)
        } else if code == 6 {
            Ok(UnderworldBuildingType::TortureChamber)
        } else if code == 7 {
            Ok(UnderworldBuildingType::GladiatorTrainer)
        } else if code == 8 {
            Ok(UnderworldBuildingType::TrollBlock)
        } else if code == 9 {
            Ok(UnderworldBuildingType::Adventuromatic)
        } else if code == 10 {
            Ok(UnderworldBuildingType::Keeper)
        } else {
            Err(EncodeError::InvalidArgument)
        }
    }
}

/// A resource that the underworld produces.
#[derive(Clone, Copy, Debug, PartialEq, Eq, Structural)]
pub enum UnderworldResourceType {
    /// Souls.
    Souls,
    /// Silver.
    Silver,
    /// Thirst for adventure.
    ThirstForAdventure,
}

impl UnderworldResourceType {
    /// The code that the server knows this resource by.
    pub open spec fn code(self) -> u8 {
        match self {
            UnderworldResourceType::Souls => 1,
            UnderworldResourceType::Silver => 2,
            UnderworldResourceType::ThirstForAdventure => 3,
        }
    }

    /// The code that the server knows this resource by.
    pub fn to_code(self) -> (code: u8)
        ensures
            code == self.code(),
    {
        match self {
            UnderworldResourceType::Souls => 1,
            UnderworldResourceType::Silver => 2,
            UnderworldResourceType::ThirstForAdventure => 3,
        }
    }

    /// The resource that `code` names. A code that names none is refused.
    pub fn from_code(code: u8) -> (found: Result<UnderworldResourceType, EncodeError>)
        ensures
            match found {
                Ok(member) => member.code() == code,
                Err(e) => e == EncodeError::InvalidArgument && forall|member: UnderworldResourceType|
                    #[trigger] member.code() != code,
            },
    {
        if code == 1 {
            Ok(UnderworldResourceType::Souls)
        } else if code == 2 {
            Ok(UnderworldResourceType::Silver)
        } else if code == 3 {
            Ok(UnderworldResourceType::ThirstForAdventure)
        } else {
            Err(EncodeError::InvalidArgument)
        }
    }
}

/// A unit of the underworld.
#[derive(Clone, Copy, Debug, PartialEq, Eq, Structural)]
pub enum UnderworldUnitType {
    /// Goblins.
    Goblin,
    /// Trolls.
    Troll,
    /// The keeper.
    Keeper,
}

impl UnderworldUnitType {
    /// The code that the server knows this unit by.
    pub open spec fn code(self) -> u8 {
        match self {
            UnderworldUnitType::Goblin => 1,
            UnderworldUnitType::Troll => 2,
            UnderworldUnitType::Keeper => 3,
        }
    }

    /// The code that the server knows this unit by.
    pub fn to_code(self) -> (code: u8)
        ensures
            code == self.code(),
    {
        match self {
            UnderworldUnitType::Goblin => 1,
            UnderworldUnitType::Troll => 2,
            UnderworldUnitType::Keeper => 3,
        }
    }

    /// The unit that `code` names. A code that names none is refused.
    pub fn from_code(code: u8) -> (found: Result<UnderworldUnitType, EncodeError>)
        ensures
            match found {
                Ok(member) => member.code() == code,
                Err(e) => e == EncodeError::InvalidArgument && forall|member: UnderworldUnitType|
                    #[trigger] member.code() != code,
            },
    {
        if code == 1 {
            Ok(UnderworldUnitType::Goblin)
        } else if code == 2 {
            Ok(UnderworldUnitType::Troll)
        } else if code == 3 {
            Ok(UnderworldUnitType::Keeper)
        } else {
            Err(EncodeError::InvalidArgument)
        }
    }
}

/// One request of the player to the server.
///
/// Names of players and guilds are raw bytes. A name must not be empty and
/// must not hold `/`, the byte that separates the arguments of a request;
/// any other name travels as it is. Messages are free text and travel
/// escaped.
#[allow(inconsistent_fields)]
#[derive(Clone, Debug, PartialEq, Eq)]
pub enum Command {
    /// Asks for whatever has changed since the last answer.
    Update,
    /// Asks for one page of the hall of fame of players. A page holds 51 ranks.
    HallOfFamePage {
        page: usize,
    },
    /// Asks for one page of the hall of fame of fortresses.
    HallOfFameFortressPage {
        page: usize,
    },
    /// Asks for one page of the hall of fame of guilds.
    HallOfFameGroupPage {
        page: usize,
    },
    /// Asks for one page of the hall of fame of underworlds.
    HallOfFameUnderworldPage {
        page: usize,
    },
    /// Asks for one page of the hall of fame of pet collections.
    HallOfFamePetsPage {
        page: usize,
    },
    /// Looks at another player, by name or by id.
    ViewPlayer {
        ident: Vec<u8>,
    },
    /// Buys a beer in the tavern.
    BuyBeer,
    /// Starts the quest at a position of the offer, counted from zero.
    StartQuest {
        quest_pos: usize,
        overwrite_inv: bool,
    },
    /// Gives up the running quest.
    CancelQuest,
    /// Finishes the running quest, skipping the rest of its time if asked to.
    FinishQuest {
        skip: Option<TimeSkip>,
    },
    /// Starts guard duty for the given number of hours.
    StartWork {
        hours: u8,
    },
    /// Gives up the running guard duty.
    CancelWork,
    /// Collects the pay of a finished guard duty.
    FinishWork,
    /// Asks whether a character name is still free.
    CheckNameAvailable {
        name: Vec<u8>,
    },
    /// Buys a mount.
    BuyMount {
        mount: Mount,
    },
    /// Trains an attribute up to the given value.
    IncreaseAttribute {
        attribute: AttributeType,
        increase_to: u32,
    },
    /// Throws away the active potion at a position, counted from zero.
    RemovePotion {
        pos: usize,
    },
    /// Asks for the opponents on offer in the arena.
    CheckArena,
    /// Fights a player in the arena, paying a mushroom to skip the wait if asked to.
    Fight {
        name: Vec<u8>,
        use_mushroom: bool,
    },
    /// Collects the reward of the day from the calendar.
    CollectCalendar,
    /// Looks at a guild, by name or by id.
    ViewGuild {
        guild_ident: Vec<u8>,
    },
    /// Founds a guild.
    GuildFound {
        name: Vec<u8>,
    },
    /// Invites a player into the guild.
    GuildInvitePlayer {
        name: Vec<u8>,
    },
    /// Removes a member from the guild.
    GuildKickPlayer {
        name: Vec<u8>,
    },
    /// Hands the guild over to another member.
    GuildSetLeader {
        name: Vec<u8>,
    },
    /// Makes a member an officer, or an officer a member.
    GuildToggleOfficer {
        name: Vec<u8>,
    },
    /// Loads a mushroom into the guild's catapult.
    GuildLoadMushrooms,
    /// Raises a guild skill from its current level.
    GuildIncreaseSkill {
        skill: GuildSkill,
        current: u16,
    },
    /// Signs up for the guild's next attack.
    GuildJoinAttack,
    /// Signs up for the guild's next defense.
    GuildJoinDefense,
    /// Declares an attack on another guild.
    GuildAttack {
        guild: Vec<u8>,
    },
    /// Starts the guild's next raid.
    GuildRaid,
    /// Fights in the guild's portal.
    GuildPortalBattle,
    /// Asks for the guilds that can be attacked.
    GuildGetFightableTargets,
    /// Sends the guild pet into battle.
    GuildPetBattle {
        use_mushroom: bool,
    },
    /// Flushes the arcane toilet.
    ToiletFlush,
    /// Unlocks the arcane toilet.
    ToiletOpen,
    /// Drops the item at a position of a container, counted from zero, into the
    /// arcane toilet.
    ToiletDrop {
        inventory: PlayerItemPlace,
        pos: usize,
    },
    /// Opens the message at a position of the inbox, counted from zero.
    MessageOpen {
        pos: i32,
    },
    /// Deletes the message at a position of the inbox, counted from zero.
    MessageDelete {
        pos: i32,
    },
    /// Sends a message to a player. The message is free text.
    SendMessage {
        to: Vec<u8>,
        msg: Vec<u8>,
    },
    /// Whispers to a player in the chat. The message is free text.
    Whisper {
        player_name: Vec<u8>,
        message: Vec<u8>,
    },
    /// Sets the language of the account, by its code.
    SetLanguage {
        language: Vec<u8>,
    },
    /// Asks for the contents of the scrapbook.
    ViewScrapbook,
    /// Looks at a pet.
    ViewPet {
        pet_id: u16,
    },
    /// Unlocks a feature that the character has qualified for.
    UnlockFeature {
        unlockable: Unlockable,
    },
    /// Fights in the player's portal.
    FightPortal,
    /// Swaps the equipment with that of the mannequin.
    SwapManequin,
    /// Stakes silver with the gambler.
    GambleSilver {
        amount: u64,
    },
    /// Stakes mushrooms with the gambler.
    GambleMushrooms {
        amount: u64,
    },
    /// Spins the wheel of fortune.
    SpinWheelOfFortune {
        payment: FortunePayment,
    },
    /// Buys the golden frame.
    BuyGoldFrame,
    /// Sacrifices the progress of the idle game for runes.
    IdleSacrifice,
    /// Turns invitations from guilds off or on.
    BlockGuildInvites {
        block_invites: bool,
    },
    /// Turns the tips off or on.
    ShowTips {
        show_tips: bool,
    },
    /// Starts to build or upgrade a building of the fortress.
    FortressBuild {
        building: FortressBuildingType,
    },
    /// Stops the work on a building of the fortress.
    FortressBuildCancel {
        building: FortressBuildingType,
    },
    /// Finishes the work on a building of the fortress, for the given number of
    /// mushrooms.
    FortressBuildFinish {
        building: FortressBuildingType,
        mushrooms: u32,
    },
    /// Collects a resource that the fortress has produced.
    FortressGather {
        resource: FortressResourceType,
    },
    /// Trains the given number of units of the fortress.
    FortressBuildUnit {
        unit: FortressUnitType,
        count: u32,
    },
    /// Starts the search for a gem.
    FortressGemStoneSearch,
    /// Stops the search for a gem.
    FortressGemStoneSearchCancel,
    /// Upgrades the hall of knights.
    FortressUpgradeHallOfKnights,
    /// Asks for another fortress to attack.
    FortressNewEnemy {
        use_mushroom: bool,
    },
    /// Takes the sender of a battle report as the fortress to attack next.
    FortressSetCAEnemy {
        msg_id: u32,
    },
    /// Collects a resource that the underworld has produced.
    UnderworldCollect {
        resource: UnderworldResourceType,
    },
    /// Upgrades a unit of the underworld.
    UnderworldUnitUpgrade {
        unit: UnderworldUnitType,
    },
    /// Stops the work on a building of the underworld.
    UnderworldUpgradeCancel {
        building: UnderworldBuildingType,
    },
    /// Finishes the work on a building of the underworld, for the given number
    /// of mushrooms.
    UnderworldUpgradeFinish {
        building: UnderworldBuildingType,
        mushrooms: u32,
    },
    /// Enters the hellevator.
    HellevatorEnter,
    /// Asks for the ranking of the own guild in the hellevator.
    HellevatorViewGuildRanking,
    /// Asks the merchant of the hellevator for new wares.
    HellevatorRefreshShop,
    /// Collects today's reward of the hellevator.
    HellevatorClaimDaily,
    /// Collects yesterday's reward of the hellevator.
    HellevatorClaimDailyYesterday,
    /// Collects the final reward of the hellevator.
    HellevatorClaimFinal,
    /// Asks what the hellevator will pay.
    HellevatorPreviewRewards,
}

} // verus!
