use session_engine::command::{
    AttributeType, Command, FortressBuildingType, FortressResourceType, FortressUnitType,
    FortunePayment, GuildSkill, Mount, PlayerItemPlace, UnderworldBuildingType,
    UnderworldResourceType, UnderworldUnitType, Unlockable,
};
use session_engine::model::{Field, Model};
use session_engine::session::{ServerConnection, Session};

/// One valid command of every kind.
fn every_command() -> Vec<Command> {
    vec![
        Command::Update,
        Command::HallOfFamePage { page: 0 },
        Command::HallOfFameFortressPage { page: 0 },
        Command::HallOfFameGroupPage { page: 0 },
        Command::HallOfFameUnderworldPage { page: 0 },
        Command::HallOfFamePetsPage { page: 0 },
        Command::ViewPlayer { ident: b"Alice".to_vec() },
        Command::BuyBeer,
        Command::StartQuest { quest_pos: 0, overwrite_inv: true },
        Command::CancelQuest,
        Command::FinishQuest { skip: None },
        Command::StartWork { hours: 4 },
        Command::CancelWork,
        Command::FinishWork,
        Command::CheckNameAvailable { name: b"Alice".to_vec() },
        Command::BuyMount { mount: Mount::Cow },
        Command::IncreaseAttribute { attribute: AttributeType::Strength, increase_to: 250 },
        Command::RemovePotion { pos: 0 },
        Command::CheckArena,
        Command::Fight { name: b"Alice".to_vec(), use_mushroom: true },
        Command::CollectCalendar,
        Command::ViewGuild { guild_ident: b"Alice".to_vec() },
        Command::GuildFound { name: b"Alice".to_vec() },
        Command::GuildInvitePlayer { name: b"Alice".to_vec() },
        Command::GuildKickPlayer { name: b"Alice".to_vec() },
        Command::GuildSetLeader { name: b"Alice".to_vec() },
        Command::GuildToggleOfficer { name: b"Alice".to_vec() },
        Command::GuildLoadMushrooms,
        Command::GuildIncreaseSkill { skill: GuildSkill::Treasure, current: 17 },
        Command::GuildJoinAttack,
        Command::GuildJoinDefense,
        Command::GuildAttack { guild: b"Alice".to_vec() },
        Command::GuildRaid,
        Command::GuildPortalBattle,
        Command::GuildGetFightableTargets,
        Command::GuildPetBattle { use_mushroom: true },
        Command::ToiletFlush,
        Command::ToiletOpen,
        Command::ToiletDrop { inventory: PlayerItemPlace::Equipment, pos: 0 },
        Command::MessageOpen { pos: 0 },
        Command::MessageDelete { pos: -1 },
        Command::SendMessage { to: b"Alice".to_vec(), msg: b"hi there: 100% / ok & bye".to_vec() },
        Command::Whisper { player_name: b"Alice".to_vec(), message: b"psst ~ a|b".to_vec() },
        Command::SetLanguage { language: b"en".to_vec() },
        Command::ViewScrapbook,
        Command::ViewPet { pet_id: 0 },
        Command::UnlockFeature { unlockable: Unlockable::Dungeons },
        Command::FightPortal,
        Command::SwapManequin,
        Command::GambleSilver { amount: 1 },
        Command::GambleMushrooms { amount: 123456789012 },
        Command::SpinWheelOfFortune { payment: FortunePayment::LuckyCoins },
        Command::BuyGoldFrame,
        Command::IdleSacrifice,
        Command::BlockGuildInvites { block_invites: true },
        Command::ShowTips { show_tips: true },
        Command::FortressBuild { building: FortressBuildingType::Fortress },
        Command::FortressBuildCancel { building: FortressBuildingType::Fortress },
        Command::FortressBuildFinish { building: FortressBuildingType::Fortress, mushrooms: 250 },
        Command::FortressGather { resource: FortressResourceType::Wood },
        Command::FortressBuildUnit { unit: FortressUnitType::Soldier, count: 1 },
        Command::FortressGemStoneSearch,
        Command::FortressGemStoneSearchCancel,
        Command::FortressUpgradeHallOfKnights,
        Command::FortressNewEnemy { use_mushroom: true },
        Command::FortressSetCAEnemy { msg_id: 250 },
        Command::UnderworldCollect { resource: UnderworldResourceType::Souls },
        Command::UnderworldUnitUpgrade { unit: UnderworldUnitType::Goblin },
        Command::UnderworldUpgradeCancel { building: UnderworldBuildingType::HeartOfDarkness },
        Command::UnderworldUpgradeFinish { building: UnderworldBuildingType::HeartOfDarkness, mushrooms: 250 },
        Command::HellevatorEnter,
        Command::HellevatorViewGuildRanking,
        Command::HellevatorRefreshShop,
        Command::HellevatorClaimDaily,
        Command::HellevatorClaimDailyYesterday,
        Command::HellevatorClaimFinal,
        Command::HellevatorPreviewRewards,
    ]
}

const WHOLE: &[u8] = b"timestamp:1000&sessionid:tok&character:1|2|3|4&equipment:&tavern:5|6|7|8&dungeons:9|10|11&guild:12|13|14&social:15|16&fortress:17|18|19&underworld:20|21|22&unlockables:23|24|25";

const FIELDS: [Field; 25] = [
    Field::CharacterLevel,
    Field::CharacterExperience,
    Field::CharacterSilver,
    Field::CharacterMushrooms,
    Field::TavernThirst,
    Field::TavernBeers,
    Field::TavernActivity,
    Field::TavernBusyUntil,
    Field::DungeonsLight,
    Field::DungeonsShadow,
    Field::DungeonsTower,
    Field::GuildIdent,
    Field::GuildRank,
    Field::GuildHonor,
    Field::SocialFriends,
    Field::SocialIgnored,
    Field::FortressLevel,
    Field::FortressWood,
    Field::FortressStone,
    Field::UnderworldLevel,
    Field::UnderworldSouls,
    Field::UnderworldSilver,
    Field::UnlockablesPets,
    Field::UnlockablesScrapbook,
    Field::UnlockablesAchievements,
];

#[test]
fn there_is_a_command_of_every_kind() {
    let commands = every_command();
    assert_eq!(commands.len(), 77);
    let mut kinds: Vec<String> = commands
        .iter()
        .map(|c| format!("{:?}", c).split(|ch: char| !ch.is_alphanumeric()).next().unwrap().to_string())
        .collect();
    kinds.sort();
    kinds.dedup();
    assert_eq!(kinds.len(), 77);
}

#[test]
fn what_the_server_answers_is_what_the_state_holds() {
    let mut session =
        Session::new(b"alice", b"secret", ServerConnection::new(b"serverA").unwrap());
    session.begin_login().unwrap();
    session.complete_login(Ok(WHOLE.to_vec()), 1000).unwrap();
    for (round, command) in every_command().into_iter().enumerate() {
        let request = session.begin_send(&command).unwrap();
        assert_eq!(request.token, Some(b"tok".to_vec()));
        assert!(!request.command.name.is_empty());
        // The canned answer sets one field, another one each round, to a
        // value that the state does not hold yet.
        let field = FIELDS[round % FIELDS.len()];
        let value = 1_000_000 + round as i64;
        let now = 2000 + round as i64;
        let mut reply = b"timestamp:".to_vec();
        reply.extend_from_slice((now + 7).to_string().as_bytes());
        reply.push(b'&');
        reply.extend_from_slice(&field.key_bytes());
        reply.push(b':');
        reply.extend_from_slice(value.to_string().as_bytes());
        let before: Vec<Option<i64>> = FIELDS.iter().map(|f| session.state().get(*f)).collect();
        let changes = session.complete_send(Ok(reply), now).unwrap();
        assert_eq!(changes.models(), vec![field.owner()], "{:?}", command);
        assert_eq!(session.state().get(field), Some(value));
        assert_eq!(session.state().drift(), 7);
        for (other, old) in FIELDS.iter().zip(before) {
            if *other != field {
                assert_eq!(session.state().get(*other), old);
            }
        }
    }
    assert_eq!(session.state().record(Model::Items), Some(vec![]));
}
