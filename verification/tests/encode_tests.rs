use session_engine::command::{
    AttributeType, Command, FortressBuildingType, FortressResourceType, FortressUnitType,
    FortunePayment, GuildSkill, Mount, PlayerItemPlace, TimeSkip, UnderworldBuildingType,
    UnderworldResourceType, UnderworldUnitType, Unlockable,
};
use session_engine::encode::{encode, EncodedRequest};
use session_engine::error::EncodeError;

fn request(name: &str, args: Vec<Vec<u8>>) -> Result<EncodedRequest, EncodeError> {
    Ok(EncodedRequest { name: name.as_bytes().to_vec(), args })
}

#[test]
fn encodes_update() {
    assert_eq!(
        encode(&Command::Update),
        request("Poll", vec![])
    );
}

#[test]
fn encodes_hall_of_fame_page() {
    assert_eq!(
        encode(&Command::HallOfFamePage { page: 0 }),
        request("PlayerGetHallOfFame", vec![b"26".to_vec(), b"".to_vec(), b"25".to_vec(), b"25".to_vec()])
    );
    assert_eq!(
        encode(&Command::HallOfFamePage { page: 3 }),
        request("PlayerGetHallOfFame", vec![b"179".to_vec(), b"".to_vec(), b"25".to_vec(), b"25".to_vec()])
    );
    assert_eq!(
        encode(&Command::HallOfFamePage { page: 84215045 }),
        request("PlayerGetHallOfFame", vec![b"4294967321".to_vec(), b"".to_vec(), b"25".to_vec(), b"25".to_vec()])
    );
    assert_eq!(
        encode(&Command::HallOfFamePage { page: 4294967295 }),
        request("PlayerGetHallOfFame", vec![b"219043332071".to_vec(), b"".to_vec(), b"25".to_vec(), b"25".to_vec()])
    );
}

#[test]
fn encodes_hall_of_fame_fortress_page() {
    assert_eq!(
        encode(&Command::HallOfFameFortressPage { page: 0 }),
        request("FortressGetHallOfFame", vec![b"26".to_vec(), b"".to_vec(), b"25".to_vec(), b"25".to_vec()])
    );
    assert_eq!(
        encode(&Command::HallOfFameFortressPage { page: 2 }),
        request("FortressGetHallOfFame", vec![b"128".to_vec(), b"".to_vec(), b"25".to_vec(), b"25".to_vec()])
    );
}

#[test]
fn encodes_hall_of_fame_group_page() {
    assert_eq!(
        encode(&Command::HallOfFameGroupPage { page: 0 }),
        request("GroupGetHallOfFame", vec![b"26".to_vec(), b"".to_vec(), b"25".to_vec(), b"25".to_vec()])
    );
    assert_eq!(
        encode(&Command::HallOfFameGroupPage { page: 2 }),
        request("GroupGetHallOfFame", vec![b"128".to_vec(), b"".to_vec(), b"25".to_vec(), b"25".to_vec()])
    );
}

#[test]
fn encodes_hall_of_fame_underworld_page() {
    assert_eq!(
        encode(&Command::HallOfFameUnderworldPage { page: 0 }),
        request("UnderworldGetHallOfFame", vec![b"26".to_vec(), b"".to_vec(), b"25".to_vec(), b"25".to_vec()])
    );
    assert_eq!(
        encode(&Command::HallOfFameUnderworldPage { page: 2 }),
        request("UnderworldGetHallOfFame", vec![b"128".to_vec(), b"".to_vec(), b"25".to_vec(), b"25".to_vec()])
    );
}

#[test]
fn encodes_hall_of_fame_pets_page() {
    assert_eq!(
        encode(&Command::HallOfFamePetsPage { page: 0 }),
        request("PetsGetHallOfFame", vec![b"26".to_vec(), b"".to_vec(), b"25".to_vec(), b"25".to_vec()])
    );
    assert_eq!(
        encode(&Command::HallOfFamePetsPage { page: 2 }),
        request("PetsGetHallOfFame", vec![b"128".to_vec(), b"".to_vec(), b"25".to_vec(), b"25".to_vec()])
    );
}

#[test]
fn encodes_view_player() {
    assert_eq!(
        encode(&Command::ViewPlayer { ident: b"Alice".to_vec() }),
        request("PlayerLookAt", vec![b"Alice".to_vec()])
    );
}

#[test]
fn encodes_buy_beer() {
    assert_eq!(
        encode(&Command::BuyBeer),
        request("PlayerBeerBuy", vec![])
    );
}

#[test]
fn encodes_start_quest() {
    assert_eq!(
        encode(&Command::StartQuest { quest_pos: 0, overwrite_inv: true }),
        request("PlayerAdventureStart", vec![b"1".to_vec(), b"1".to_vec()])
    );
    assert_eq!(
        encode(&Command::StartQuest { quest_pos: 2, overwrite_inv: false }),
        request("PlayerAdventureStart", vec![b"3".to_vec(), b"0".to_vec()])
    );
    assert_eq!(
        encode(&Command::StartQuest { quest_pos: 4294967295, overwrite_inv: true }),
        request("PlayerAdventureStart", vec![b"4294967296".to_vec(), b"1".to_vec()])
    );
}

#[test]
fn encodes_cancel_quest() {
    assert_eq!(
        encode(&Command::CancelQuest),
        request("PlayerAdventureStop", vec![])
    );
}

#[test]
fn encodes_finish_quest() {
    assert_eq!(
        encode(&Command::FinishQuest { skip: None }),
        request("PlayerAdventureFinished", vec![b"0".to_vec()])
    );
    assert_eq!(
        encode(&Command::FinishQuest { skip: Some(TimeSkip::Mushroom) }),
        request("PlayerAdventureFinished", vec![b"1".to_vec()])
    );
    assert_eq!(
        encode(&Command::FinishQuest { skip: Some(TimeSkip::Glass) }),
        request("PlayerAdventureFinished", vec![b"2".to_vec()])
    );
}

#[test]
fn encodes_start_work() {
    assert_eq!(
        encode(&Command::StartWork { hours: 4 }),
        request("PlayerWorkStart", vec![b"4".to_vec()])
    );
    assert_eq!(
        encode(&Command::StartWork { hours: 0 }),
        request("PlayerWorkStart", vec![b"0".to_vec()])
    );
    assert_eq!(
        encode(&Command::StartWork { hours: 255 }),
        request("PlayerWorkStart", vec![b"255".to_vec()])
    );
}

#[test]
fn encodes_cancel_work() {
    assert_eq!(
        encode(&Command::CancelWork),
        request("PlayerWorkStop", vec![])
    );
}

#[test]
fn encodes_finish_work() {
    assert_eq!(
        encode(&Command::FinishWork),
        request("PlayerWorkFinished", vec![])
    );
}

#[test]
fn encodes_check_name_available() {
    assert_eq!(
        encode(&Command::CheckNameAvailable { name: b"Alice".to_vec() }),
        request("AccountCheck", vec![b"Alice".to_vec()])
    );
}

#[test]
fn encodes_buy_mount() {
    assert_eq!(
        encode(&Command::BuyMount { mount: Mount::Cow }),
        request("PlayerMountBuy", vec![b"1".to_vec()])
    );
    assert_eq!(
        encode(&Command::BuyMount { mount: Mount::Dragon }),
        request("PlayerMountBuy", vec![b"4".to_vec()])
    );
}

#[test]
fn encodes_increase_attribute() {
    assert_eq!(
        encode(&Command::IncreaseAttribute { attribute: AttributeType::Strength, increase_to: 250 }),
        request("PlayerAttributIncrease", vec![b"1".to_vec(), b"250".to_vec()])
    );
    assert_eq!(
        encode(&Command::IncreaseAttribute { attribute: AttributeType::Luck, increase_to: 250 }),
        request("PlayerAttributIncrease", vec![b"5".to_vec(), b"250".to_vec()])
    );
}

#[test]
fn encodes_remove_potion() {
    assert_eq!(
        encode(&Command::RemovePotion { pos: 0 }),
        request("PlayerPotionKill", vec![b"1".to_vec()])
    );
    assert_eq!(
        encode(&Command::RemovePotion { pos: 7 }),
        request("PlayerPotionKill", vec![b"8".to_vec()])
    );
}

#[test]
fn encodes_check_arena() {
    assert_eq!(
        encode(&Command::CheckArena),
        request("PlayerArenaEnemy", vec![])
    );
}

#[test]
fn encodes_fight() {
    assert_eq!(
        encode(&Command::Fight { name: b"Alice".to_vec(), use_mushroom: true }),
        request("PlayerArenaFight", vec![b"Alice".to_vec(), b"1".to_vec()])
    );
    assert_eq!(
        encode(&Command::Fight { name: b"Alice".to_vec(), use_mushroom: false }),
        request("PlayerArenaFight", vec![b"Alice".to_vec(), b"0".to_vec()])
    );
}

#[test]
fn encodes_collect_calendar() {
    assert_eq!(
        encode(&Command::CollectCalendar),
        request("PlayerOpenCalender", vec![])
    );
}

#[test]
fn encodes_view_guild() {
    assert_eq!(
        encode(&Command::ViewGuild { guild_ident: b"Alice".to_vec() }),
        request("GroupLookAt", vec![b"Alice".to_vec()])
    );
}

#[test]
fn encodes_guild_found() {
    assert_eq!(
        encode(&Command::GuildFound { name: b"Alice".to_vec() }),
        request("GroupFound", vec![b"Alice".to_vec()])
    );
}

#[test]
fn encodes_guild_invite_player() {
    assert_eq!(
        encode(&Command::GuildInvitePlayer { name: b"Alice".to_vec() }),
        request("GroupInviteMember", vec![b"Alice".to_vec()])
    );
}

#[test]
fn encodes_guild_kick_player() {
    assert_eq!(
        encode(&Command::GuildKickPlayer { name: b"Alice".to_vec() }),
        request("GroupRemoveMember", vec![b"Alice".to_vec()])
    );
}

#[test]
fn encodes_guild_set_leader() {
    assert_eq!(
        encode(&Command::GuildSetLeader { name: b"Alice".to_vec() }),
        request("GroupSetLeader", vec![b"Alice".to_vec()])
    );
}

#[test]
fn encodes_guild_toggle_officer() {
    assert_eq!(
        encode(&Command::GuildToggleOfficer { name: b"Alice".to_vec() }),
        request("GroupSetOfficer", vec![b"Alice".to_vec()])
    );
}

#[test]
fn encodes_guild_load_mushrooms() {
    assert_eq!(
        encode(&Command::GuildLoadMushrooms),
        request("GroupIncreaseBuilding", vec![b"0".to_vec()])
    );
}

#[test]
fn encodes_guild_increase_skill() {
    assert_eq!(
        encode(&Command::GuildIncreaseSkill { skill: GuildSkill::Treasure, current: 17 }),
        request("GroupSkillIncrease", vec![b"0".to_vec(), b"17".to_vec()])
    );
    assert_eq!(
        encode(&Command::GuildIncreaseSkill { skill: GuildSkill::Pet, current: 17 }),
        request("GroupSkillIncrease", vec![b"2".to_vec(), b"17".to_vec()])
    );
}

#[test]
fn encodes_guild_join_attack() {
    assert_eq!(
        encode(&Command::GuildJoinAttack),
        request("GroupReadyAttack", vec![])
    );
}

#[test]
fn encodes_guild_join_defense() {
    assert_eq!(
        encode(&Command::GuildJoinDefense),
        request("GroupReadyDefense", vec![])
    );
}

#[test]
fn encodes_guild_attack() {
    assert_eq!(
        encode(&Command::GuildAttack { guild: b"Alice".to_vec() }),
        request("GroupAttackDeclare", vec![b"Alice".to_vec()])
    );
}

#[test]
fn encodes_guild_raid() {
    assert_eq!(
        encode(&Command::GuildRaid),
        request("GroupRaidDeclare", vec![])
    );
}

#[test]
fn encodes_guild_portal_battle() {
    assert_eq!(
        encode(&Command::GuildPortalBattle),
        request("GroupPortalFight", vec![])
    );
}

#[test]
fn encodes_guild_get_fightable_targets() {
    assert_eq!(
        encode(&Command::GuildGetFightableTargets),
        request("GroupFightableTargets", vec![])
    );
}

#[test]
fn encodes_guild_pet_battle() {
    assert_eq!(
        encode(&Command::GuildPetBattle { use_mushroom: true }),
        request("GroupPetBattle", vec![b"1".to_vec()])
    );
    assert_eq!(
        encode(&Command::GuildPetBattle { use_mushroom: false }),
        request("GroupPetBattle", vec![b"0".to_vec()])
    );
}

#[test]
fn encodes_toilet_flush() {
    assert_eq!(
        encode(&Command::ToiletFlush),
        request("PlayerToilettFlush", vec![])
    );
}

#[test]
fn encodes_toilet_open() {
    assert_eq!(
        encode(&Command::ToiletOpen),
        request("PlayerToilettOpenWithKey", vec![])
    );
}

#[test]
fn encodes_toilet_drop() {
    assert_eq!(
        encode(&Command::ToiletDrop { inventory: PlayerItemPlace::Equipment, pos: 0 }),
        request("PlayerToilettLoad", vec![b"1".to_vec(), b"1".to_vec()])
    );
    assert_eq!(
        encode(&Command::ToiletDrop { inventory: PlayerItemPlace::ExtendedInventory, pos: 40 }),
        request("PlayerToilettLoad", vec![b"5".to_vec(), b"41".to_vec()])
    );
}

#[test]
fn encodes_message_open() {
    assert_eq!(
        encode(&Command::MessageOpen { pos: 0 }),
        request("PlayerMessageView", vec![b"1".to_vec()])
    );
    assert_eq!(
        encode(&Command::MessageOpen { pos: -3 }),
        request("PlayerMessageView", vec![b"-2".to_vec()])
    );
    assert_eq!(
        encode(&Command::MessageOpen { pos: 2147483647 }),
        request("PlayerMessageView", vec![b"2147483648".to_vec()])
    );
}

#[test]
fn encodes_message_delete() {
    assert_eq!(
        encode(&Command::MessageDelete { pos: -1 }),
        request("PlayerMessageDelete", vec![b"0".to_vec()])
    );
    assert_eq!(
        encode(&Command::MessageDelete { pos: 0 }),
        request("PlayerMessageDelete", vec![b"1".to_vec()])
    );
    assert_eq!(
        encode(&Command::MessageDelete { pos: 7 }),
        request("PlayerMessageDelete", vec![b"8".to_vec()])
    );
    assert_eq!(
        encode(&Command::MessageDelete { pos: -2147483648 }),
        request("PlayerMessageDelete", vec![b"-2147483647".to_vec()])
    );
    assert_eq!(
        encode(&Command::MessageDelete { pos: 2147483647 }),
        request("PlayerMessageDelete", vec![b"2147483648".to_vec()])
    );
}

#[test]
fn encodes_send_message() {
    assert_eq!(
        encode(&Command::SendMessage { to: b"Alice".to_vec(), msg: b"hi there: 100% / ok & bye".to_vec() }),
        request("PlayerMessageSend", vec![b"Alice".to_vec(), b"hi%20there%3A%20100%25%20%2F%20ok%20%26%20bye".to_vec()])
    );
}

#[test]
fn encodes_whisper() {
    assert_eq!(
        encode(&Command::Whisper { player_name: b"Alice".to_vec(), message: b"psst ~ a|b".to_vec() }),
        request("PlayerMessageWhisper", vec![b"Alice".to_vec(), b"psst%20%7E%20a%7Cb".to_vec()])
    );
}

#[test]
fn encodes_set_language() {
    assert_eq!(
        encode(&Command::SetLanguage { language: b"en".to_vec() }),
        request("AccountSetLanguage", vec![b"en".to_vec()])
    );
    assert_eq!(
        encode(&Command::SetLanguage { language: b"pt-br".to_vec() }),
        request("AccountSetLanguage", vec![b"pt-br".to_vec()])
    );
}

#[test]
fn encodes_view_scrapbook() {
    assert_eq!(
        encode(&Command::ViewScrapbook),
        request("PlayerPollScrapbook", vec![])
    );
}

#[test]
fn encodes_view_pet() {
    assert_eq!(
        encode(&Command::ViewPet { pet_id: 0 }),
        request("PetsGetStats", vec![b"0".to_vec()])
    );
    assert_eq!(
        encode(&Command::ViewPet { pet_id: 65535 }),
        request("PetsGetStats", vec![b"65535".to_vec()])
    );
}

#[test]
fn encodes_unlock_feature() {
    assert_eq!(
        encode(&Command::UnlockFeature { unlockable: Unlockable::Dungeons }),
        request("UnlockFeature", vec![b"1".to_vec()])
    );
    assert_eq!(
        encode(&Command::UnlockFeature { unlockable: Unlockable::WitchCauldron }),
        request("UnlockFeature", vec![b"6".to_vec()])
    );
}

#[test]
fn encodes_fight_portal() {
    assert_eq!(
        encode(&Command::FightPortal),
        request("PlayerPortalBattle", vec![])
    );
}

#[test]
fn encodes_swap_manequin() {
    assert_eq!(
        encode(&Command::SwapManequin),
        request("PlayerDummySwap", vec![b"301".to_vec(), b"1".to_vec()])
    );
}

#[test]
fn encodes_gamble_silver() {
    assert_eq!(
        encode(&Command::GambleSilver { amount: 1 }),
        request("PlayerGambleGold", vec![b"1".to_vec()])
    );
    assert_eq!(
        encode(&Command::GambleSilver { amount: 0 }),
        request("PlayerGambleGold", vec![b"0".to_vec()])
    );
    assert_eq!(
        encode(&Command::GambleSilver { amount: 18446744073709551615 }),
        request("PlayerGambleGold", vec![b"18446744073709551615".to_vec()])
    );
}

#[test]
fn encodes_gamble_mushrooms() {
    assert_eq!(
        encode(&Command::GambleMushrooms { amount: 123456789012 }),
        request("PlayerGambleCoins", vec![b"123456789012".to_vec()])
    );
}

#[test]
fn encodes_spin_wheel_of_fortune() {
    assert_eq!(
        encode(&Command::SpinWheelOfFortune { payment: FortunePayment::LuckyCoins }),
        request("WheelOfFortune", vec![b"0".to_vec()])
    );
    assert_eq!(
        encode(&Command::SpinWheelOfFortune { payment: FortunePayment::FreeTurn }),
        request("WheelOfFortune", vec![b"2".to_vec()])
    );
}

#[test]
fn encodes_buy_gold_frame() {
    assert_eq!(
        encode(&Command::BuyGoldFrame),
        request("PlayerGoldFrameBuy", vec![])
    );
}

#[test]
fn encodes_idle_sacrifice() {
    assert_eq!(
        encode(&Command::IdleSacrifice),
        request("IdlePrestige", vec![b"0".to_vec()])
    );
}

#[test]
fn encodes_block_guild_invites() {
    assert_eq!(
        encode(&Command::BlockGuildInvites { block_invites: true }),
        request("PlayerSetNoGroupInvite", vec![b"1".to_vec()])
    );
    assert_eq!(
        encode(&Command::BlockGuildInvites { block_invites: false }),
        request("PlayerSetNoGroupInvite", vec![b"0".to_vec()])
    );
}

#[test]
fn encodes_show_tips() {
    assert_eq!(
        encode(&Command::ShowTips { show_tips: true }),
        request("PlayerTutorialStatus", vec![b"1".to_vec()])
    );
    assert_eq!(
        encode(&Command::ShowTips { show_tips: false }),
        request("PlayerTutorialStatus", vec![b"0".to_vec()])
    );
}

#[test]
fn encodes_fortress_build() {
    assert_eq!(
        encode(&Command::FortressBuild { building: FortressBuildingType::Fortress }),
        request("FortressBuildStart", vec![b"1".to_vec(), b"0".to_vec()])
    );
    assert_eq!(
        encode(&Command::FortressBuild { building: FortressBuildingType::Wall }),
        request("FortressBuildStart", vec![b"12".to_vec(), b"0".to_vec()])
    );
}

#[test]
fn encodes_fortress_build_cancel() {
    assert_eq!(
        encode(&Command::FortressBuildCancel { building: FortressBuildingType::Fortress }),
        request("FortressBuildStop", vec![b"1".to_vec()])
    );
    assert_eq!(
        encode(&Command::FortressBuildCancel { building: FortressBuildingType::Wall }),
        request("FortressBuildStop", vec![b"12".to_vec()])
    );
}

#[test]
fn encodes_fortress_build_finish() {
    assert_eq!(
        encode(&Command::FortressBuildFinish { building: FortressBuildingType::Fortress, mushrooms: 250 }),
        request("FortressBuildFinished", vec![b"1".to_vec(), b"250".to_vec()])
    );
    assert_eq!(
        encode(&Command::FortressBuildFinish { building: FortressBuildingType::Wall, mushrooms: 250 }),
        request("FortressBuildFinished", vec![b"12".to_vec(), b"250".to_vec()])
    );
}

#[test]
fn encodes_fortress_gather() {
    assert_eq!(
        encode(&Command::FortressGather { resource: FortressResourceType::Wood }),
        request("FortressGather", vec![b"1".to_vec()])
    );
    assert_eq!(
        encode(&Command::FortressGather { resource: FortressResourceType::Experience }),
        request("FortressGather", vec![b"3".to_vec()])
    );
}

#[test]
fn encodes_fortress_build_unit() {
    assert_eq!(
        encode(&Command::FortressBuildUnit { unit: FortressUnitType::Soldier, count: 1 }),
        request("FortressBuildUnitStart", vec![b"1".to_vec(), b"1".to_vec()])
    );
    assert_eq!(
        encode(&Command::FortressBuildUnit { unit: FortressUnitType::Archer, count: 0 }),
        request("FortressBuildUnitStart", vec![b"3".to_vec(), b"0".to_vec()])
    );
    assert_eq!(
        encode(&Command::FortressBuildUnit { unit: FortressUnitType::Soldier, count: 4294967295 }),
        request("FortressBuildUnitStart", vec![b"1".to_vec(), b"4294967295".to_vec()])
    );
}

#[test]
fn encodes_fortress_gem_stone_search() {
    assert_eq!(
        encode(&Command::FortressGemStoneSearch),
        request("FortressGemstoneStart", vec![])
    );
}

#[test]
fn encodes_fortress_gem_stone_search_cancel() {
    assert_eq!(
        encode(&Command::FortressGemStoneSearchCancel),
        request("FortressGemStoneStop", vec![b"0".to_vec()])
    );
}

#[test]
fn encodes_fortress_upgrade_hall_of_knights() {
    assert_eq!(
        encode(&Command::FortressUpgradeHallOfKnights),
        request("FortressGroupBonusUpgrade", vec![])
    );
}

#[test]
fn encodes_fortress_new_enemy() {
    assert_eq!(
        encode(&Command::FortressNewEnemy { use_mushroom: true }),
        request("FortressEnemy", vec![b"1".to_vec()])
    );
    assert_eq!(
        encode(&Command::FortressNewEnemy { use_mushroom: false }),
        request("FortressEnemy", vec![b"0".to_vec()])
    );
}

#[test]
fn encodes_fortress_set_ca_enemy() {
    assert_eq!(
        encode(&Command::FortressSetCAEnemy { msg_id: 250 }),
        request("FortressEnemy", vec![b"0".to_vec(), b"250".to_vec()])
    );
}

#[test]
fn encodes_underworld_collect() {
    assert_eq!(
        encode(&Command::UnderworldCollect { resource: UnderworldResourceType::Souls }),
        request("UnderworldGather", vec![b"1".to_vec()])
    );
    assert_eq!(
        encode(&Command::UnderworldCollect { resource: UnderworldResourceType::ThirstForAdventure }),
        request("UnderworldGather", vec![b"3".to_vec()])
    );
}

#[test]
fn encodes_underworld_unit_upgrade() {
    assert_eq!(
        encode(&Command::UnderworldUnitUpgrade { unit: UnderworldUnitType::Goblin }),
        request("UnderworldUpgradeUnit", vec![b"1".to_vec()])
    );
    assert_eq!(
        encode(&Command::UnderworldUnitUpgrade { unit: UnderworldUnitType::Keeper }),
        request("UnderworldUpgradeUnit", vec![b"3".to_vec()])
    );
}

#[test]
fn encodes_underworld_upgrade_cancel() {
    assert_eq!(
        encode(&Command::UnderworldUpgradeCancel { building: UnderworldBuildingType::HeartOfDarkness }),
        request("UnderworldBuildStop", vec![b"1".to_vec()])
    );
    assert_eq!(
        encode(&Command::UnderworldUpgradeCancel { building: UnderworldBuildingType::Keeper }),
        request("UnderworldBuildStop", vec![b"10".to_vec()])
    );
}

#[test]
fn encodes_underworld_upgrade_finish() {
    assert_eq!(
        encode(&Command::UnderworldUpgradeFinish { building: UnderworldBuildingType::HeartOfDarkness, mushrooms: 250 }),
        request("UnderworldBuildFinished", vec![b"1".to_vec(), b"250".to_vec()])
    );
    assert_eq!(
        encode(&Command::UnderworldUpgradeFinish { building: UnderworldBuildingType::Keeper, mushrooms: 250 }),
        request("UnderworldBuildFinished", vec![b"10".to_vec(), b"250".to_vec()])
    );
}

#[test]
fn encodes_hellevator_enter() {
    assert_eq!(
        encode(&Command::HellevatorEnter),
        request("GroupTournamentJoin", vec![])
    );
}

#[test]
fn encodes_hellevator_view_guild_ranking() {
    assert_eq!(
        encode(&Command::HellevatorViewGuildRanking),
        request("GroupTournamentRankingOwnGroup", vec![])
    );
}

#[test]
fn encodes_hellevator_refresh_shop() {
    assert_eq!(
        encode(&Command::HellevatorRefreshShop),
        request("GroupTournamentMerchantReroll", vec![])
    );
}

#[test]
fn encodes_hellevator_claim_daily() {
    assert_eq!(
        encode(&Command::HellevatorClaimDaily),
        request("GroupTournamentClaimDaily", vec![])
    );
}

#[test]
fn encodes_hellevator_claim_daily_yesterday() {
    assert_eq!(
        encode(&Command::HellevatorClaimDailyYesterday),
        request("GroupTournamentClaimDailyYesterday", vec![])
    );
}

#[test]
fn encodes_hellevator_claim_final() {
    assert_eq!(
        encode(&Command::HellevatorClaimFinal),
        request("GroupTournamentClaim", vec![])
    );
}

#[test]
fn encodes_hellevator_preview_rewards() {
    assert_eq!(
        encode(&Command::HellevatorPreviewRewards),
        request("GroupTournamentPreview", vec![])
    );
}
