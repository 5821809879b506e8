//! Encoding of commands into requests.
//!
//! A request is the name of a server command and a list of arguments in the
//! order that the server expects. Numbers are written in decimal, booleans
//! as `0` or `1`, members of an enumeration as their code in decimal. Names
//! travel as they are, spaces and letters of any alphabet included; the one
//! byte that a name cannot hold is `/`, which separates the arguments, and a
//! name cannot be empty. Messages travel escaped. On the wire the name of
//! the command is followed by `:` and the arguments, separated by `/`.
//!
//! Every command whose names are in order can be encoded: no number is
//! refused.

use vstd::prelude::*;
use vstd::string::*;
use crate::command::Command;
use crate::error::EncodeError;
use crate::escape::{escape, escape_spec, is_plain_text, is_reserved, lemma_escape_is_safe};
use crate::number::{decimal, format_i64, format_u128, int_text, is_digit, lemma_decimal_digits};
use crate::text::{
    contains_byte, copy_bytes, first_index, join_spec, lemma_first_index_unique,
    lemma_split_of_join, split_spec, views, COLON, SLASH, ZERO,
};

verus! {

/// `1`, the text of a set flag.
pub const ONE: u8 = 49;

/// A command as the server expects it: its name and its arguments, in order.
#[derive(Clone, Debug, PartialEq, Eq)]
pub struct EncodedRequest {
    /// The name of the server command.
    pub name: Vec<u8>,
    /// The arguments, each already in its textual form.
    pub args: Vec<Vec<u8>>,
}

/// What an encoded request holds.
pub struct RequestText {
    /// The name of the server command.
    pub name: Seq<u8>,
    /// The arguments, each in its textual form.
    pub args: Seq<Seq<u8>>,
}

impl View for EncodedRequest {
    type V = RequestText;

    open spec fn view(&self) -> RequestText {
        RequestText { name: self.name@, args: views(self.args@) }
    }
}

/// How many ranks one page of a hall of fame holds.
pub const RANKS_PER_PAGE: u128 = 51;

/// How many ranks a page shows before and after the rank in its middle.
pub const RANKS_AROUND: u128 = 25;

/// The arguments that ask for one page of a hall of fame: the rank in the
/// middle of the page, no name to look for, and how many ranks to show
/// before and after that rank.
pub open spec fn ranking_args(page: usize) -> Seq<Seq<u8>> {
    seq![
        decimal((page * RANKS_PER_PAGE + RANKS_AROUND + 1) as nat),
        Seq::<u8>::empty(),
        decimal(RANKS_AROUND as nat),
        decimal(RANKS_AROUND as nat),
    ]
}

/// Whether `name` can stand as a name among the arguments of a request: it
/// is not empty and holds no `/`. An empty name would leave a command that
/// takes one name looking like a command that takes none, and a `/` would
/// make two arguments of one.
pub open spec fn is_name(name: Seq<u8>) -> bool {
    name.len() > 0 && !name.contains(SLASH)
}

/// The text of a boolean argument.
pub open spec fn flag_text(set: bool) -> Seq<u8> {
    if set {
        seq![ONE]
    } else {
        seq![ZERO]
    }
}

/// The name of the server command that carries out `cmd`.
pub open spec fn command_name(cmd: Command) -> Seq<u8> {
    match cmd {
        Command::Update => "Poll".spec_bytes(),
        Command::HallOfFamePage { .. } => "PlayerGetHallOfFame".spec_bytes(),
        Command::HallOfFameFortressPage { .. } => "FortressGetHallOfFame".spec_bytes(),
        Command::HallOfFameGroupPage { .. } => "GroupGetHallOfFame".spec_bytes(),
        Command::HallOfFameUnderworldPage { .. } => "UnderworldGetHallOfFame".spec_bytes(),
        Command::HallOfFamePetsPage { .. } => "PetsGetHallOfFame".spec_bytes(),
        Command::ViewPlayer { .. } => "PlayerLookAt".spec_bytes(),
        Command::BuyBeer => "PlayerBeerBuy".spec_bytes(),
        Command::StartQuest { .. } => "PlayerAdventureStart".spec_bytes(),
        Command::CancelQuest => "PlayerAdventureStop".spec_bytes(),
        Command::FinishQuest { .. } => "PlayerAdventureFinished".spec_bytes(),
        Command::StartWork { .. } => "PlayerWorkStart".spec_bytes(),
        Command::CancelWork => "PlayerWorkStop".spec_bytes(),
        Command::FinishWork => "PlayerWorkFinished".spec_bytes(),
        Command::CheckNameAvailable { .. } => "AccountCheck".spec_bytes(),
        Command::BuyMount { .. } => "PlayerMountBuy".spec_bytes(),
        Command::IncreaseAttribute { .. } => "PlayerAttributIncrease".spec_bytes(),
        Command::RemovePotion { .. } => "PlayerPotionKill".spec_bytes(),
        Command::CheckArena => "PlayerArenaEnemy".spec_bytes(),
        Command::Fight { .. } => "PlayerArenaFight".spec_bytes(),
        Command::CollectCalendar => "PlayerOpenCalender".spec_bytes(),
        Command::ViewGuild { .. } => "GroupLookAt".spec_bytes(),
        Command::GuildFound { .. } => "GroupFound".spec_bytes(),
        Command::GuildInvitePlayer { .. } => "GroupInviteMember".spec_bytes(),
        Command::GuildKickPlayer { .. } => "GroupRemoveMember".spec_bytes(),
        Command::GuildSetLeader { .. } => "GroupSetLeader".spec_bytes(),
        Command::GuildToggleOfficer { .. } => "GroupSetOfficer".spec_bytes(),
        Command::GuildLoadMushrooms => "GroupIncreaseBuilding".spec_bytes(),
        Command::GuildIncreaseSkill { .. } => "GroupSkillIncrease".spec_bytes(),
        Command::GuildJoinAttack => "GroupReadyAttack".spec_bytes(),
        Command::GuildJoinDefense => "GroupReadyDefense".spec_bytes(),
        Command::GuildAttack { .. } => "GroupAttackDeclare".spec_bytes(),
        Command::GuildRaid => "GroupRaidDeclare".spec_bytes(),
        Command::GuildPortalBattle => "GroupPortalFight".spec_bytes(),
        Command::GuildGetFightableTargets => "GroupFightableTargets".spec_bytes(),
        Command::GuildPetBattle { .. } => "GroupPetBattle".spec_bytes(),
        Command::ToiletFlush => "PlayerToilettFlush".spec_bytes(),
        Command::ToiletOpen => "PlayerToilettOpenWithKey".spec_bytes(),
        Command::ToiletDrop { .. } => "PlayerToilettLoad".spec_bytes(),
        Command::MessageOpen { .. } => "PlayerMessageView".spec_bytes(),
        Command::MessageDelete { .. } => "PlayerMessageDelete".spec_bytes(),
        Command::SendMessage { .. } => "PlayerMessageSend".spec_bytes(),
        Command::Whisper { .. } => "PlayerMessageWhisper".spec_bytes(),
        Command::SetLanguage { .. } => "AccountSetLanguage".spec_bytes(),
        Command::ViewScrapbook => "PlayerPollScrapbook".spec_bytes(),
        Command::ViewPet { .. } => "PetsGetStats".spec_bytes(),
        Command::UnlockFeature { .. } => "UnlockFeature".spec_bytes(),
        Command::FightPortal => "PlayerPortalBattle".spec_bytes(),
        Command::SwapManequin => "PlayerDummySwap".spec_bytes(),
        Command::GambleSilver { .. } => "PlayerGambleGold".spec_bytes(),
        Command::GambleMushrooms { .. } => "PlayerGambleCoins".spec_bytes(),
        Command::SpinWheelOfFortune { .. } => "WheelOfFortune".spec_bytes(),
        Command::BuyGoldFrame => "PlayerGoldFrameBuy".spec_bytes(),
        Command::IdleSacrifice => "IdlePrestige".spec_bytes(),
        Command::BlockGuildInvites { .. } => "PlayerSetNoGroupInvite".spec_bytes(),
        Command::ShowTips { .. } => "PlayerTutorialStatus".spec_bytes(),
        Command::FortressBuild { .. } => "FortressBuildStart".spec_bytes(),
        Command::FortressBuildCancel { .. } => "FortressBuildStop".spec_bytes(),
        Command::FortressBuildFinish { .. } => "FortressBuildFinished".spec_bytes(),
        Command::FortressGather { .. } => "FortressGather".spec_bytes(),
        Command::FortressBuildUnit { .. } => "FortressBuildUnitStart".spec_bytes(),
        Command::FortressGemStoneSearch => "FortressGemstoneStart".spec_bytes(),
        Command::FortressGemStoneSearchCancel => "FortressGemStoneStop".spec_bytes(),
        Command::FortressUpgradeHallOfKnights => "FortressGroupBonusUpgrade".spec_bytes(),
        Command::FortressNewEnemy { .. } => "FortressEnemy".spec_bytes(),
        Command::FortressSetCAEnemy { .. } => "FortressEnemy".spec_bytes(),
        Command::UnderworldCollect { .. } => "UnderworldGather".spec_bytes(),
        Command::UnderworldUnitUpgrade { .. } => "UnderworldUpgradeUnit".spec_bytes(),
        Command::UnderworldUpgradeCancel { .. } => "UnderworldBuildStop".spec_bytes(),
        Command::UnderworldUpgradeFinish { .. } => "UnderworldBuildFinished".spec_bytes(),
        Command::HellevatorEnter => "GroupTournamentJoin".spec_bytes(),
        Command::HellevatorViewGuildRanking => "GroupTournamentRankingOwnGroup".spec_bytes(),
        Command::HellevatorRefreshShop => "GroupTournamentMerchantReroll".spec_bytes(),
        Command::HellevatorClaimDaily => "GroupTournamentClaimDaily".spec_bytes(),
        Command::HellevatorClaimDailyYesterday => "GroupTournamentClaimDailyYesterday".spec_bytes(),
        Command::HellevatorClaimFinal => "GroupTournamentClaim".spec_bytes(),
        Command::HellevatorPreviewRewards => "GroupTournamentPreview".spec_bytes(),
    }
}

/// The arguments of `cmd`, in the order and the form that the server expects.
pub open spec fn command_args(cmd: Command) -> Seq<Seq<u8>> {
    match cmd {
        Command::HallOfFamePage { page } => ranking_args(page),
        Command::HallOfFameFortressPage { page } => ranking_args(page),
        Command::HallOfFameGroupPage { page } => ranking_args(page),
        Command::HallOfFameUnderworldPage { page } => ranking_args(page),
        Command::HallOfFamePetsPage { page } => ranking_args(page),
        Command::ViewPlayer { ident } => seq![ident@],
        Command::StartQuest { quest_pos, overwrite_inv } => seq![
            decimal((quest_pos + 1) as nat),
            flag_text(overwrite_inv),
        ],
        Command::FinishQuest { skip } => seq![
            decimal((match skip {
                Some(how) => how.code(),
                None => 0u8,
            }) as nat),
        ],
        Command::StartWork { hours } => seq![decimal(hours as nat)],
        Command::CheckNameAvailable { name } => seq![name@],
        Command::BuyMount { mount } => seq![decimal(mount.code() as nat)],
        Command::IncreaseAttribute { attribute, increase_to } => seq![
            decimal(attribute.code() as nat),
            decimal(increase_to as nat),
        ],
        Command::RemovePotion { pos } => seq![decimal((pos + 1) as nat)],
        Command::Fight { name, use_mushroom } => seq![name@, flag_text(use_mushroom)],
        Command::ViewGuild { guild_ident } => seq![guild_ident@],
        Command::GuildFound { name } => seq![name@],
        Command::GuildInvitePlayer { name } => seq![name@],
        Command::GuildKickPlayer { name } => seq![name@],
        Command::GuildSetLeader { name } => seq![name@],
        Command::GuildToggleOfficer { name } => seq![name@],
        Command::GuildLoadMushrooms => seq![decimal(0)],
        Command::GuildIncreaseSkill { skill, current } => seq![
            decimal(skill.code() as nat),
            decimal(current as nat),
        ],
        Command::GuildAttack { guild } => seq![guild@],
        Command::GuildPetBattle { use_mushroom } => seq![flag_text(use_mushroom)],
        Command::ToiletDrop { inventory, pos } => seq![
            decimal(inventory.code() as nat),
            decimal((pos + 1) as nat),
        ],
        Command::MessageOpen { pos } => seq![int_text(pos + 1)],
        Command::MessageDelete { pos } => seq![int_text(pos + 1)],
        Command::SendMessage { to, msg } => seq![to@, escape_spec(msg@)],
        Command::Whisper { player_name, message } => seq![player_name@, escape_spec(message@)],
        Command::SetLanguage { language } => seq![language@],
        Command::ViewPet { pet_id } => seq![decimal(pet_id as nat)],
        Command::UnlockFeature { unlockable } => seq![decimal(unlockable.code() as nat)],
        Command::SwapManequin => seq![decimal(301), decimal(1)],
        Command::GambleSilver { amount } => seq![decimal(amount as nat)],
        Command::GambleMushrooms { amount } => seq![decimal(amount as nat)],
        Command::SpinWheelOfFortune { payment } => seq![decimal(payment.code() as nat)],
        Command::IdleSacrifice => seq![decimal(0)],
        Command::BlockGuildInvites { block_invites } => seq![flag_text(block_invites)],
        Command::ShowTips { show_tips } => seq![flag_text(show_tips)],
        Command::FortressBuild { building } => seq![decimal(building.code() as nat), decimal(0)],
        Command::FortressBuildCancel { building } => seq![decimal(building.code() as nat)],
        Command::FortressBuildFinish { building, mushrooms } => seq![
            decimal(building.code() as nat),
            decimal(mushrooms as nat),
        ],
        Command::FortressGather { resource } => seq![decimal(resource.code() as nat)],
        Command::FortressBuildUnit { unit, count } => seq![
            decimal(unit.code() as nat),
            decimal(count as nat),
        ],
        Command::FortressGemStoneSearchCancel => seq![decimal(0)],
        Command::FortressNewEnemy { use_mushroom } => seq![flag_text(use_mushroom)],
        Command::FortressSetCAEnemy { msg_id } => seq![decimal(0), decimal(msg_id as nat)],
        Command::UnderworldCollect { resource } => seq![decimal(resource.code() as nat)],
        Command::UnderworldUnitUpgrade { unit } => seq![decimal(unit.code() as nat)],
        Command::UnderworldUpgradeCancel { building } => seq![decimal(building.code() as nat)],
        Command::UnderworldUpgradeFinish { building, mushrooms } => seq![
            decimal(building.code() as nat),
            decimal(mushrooms as nat),
        ],
        _ => Seq::<Seq<u8>>::empty(),
    }
}

/// Whether the arguments of `cmd` can be put on the wire: every name among
/// them is a name. Numbers, flags, members of enumerations and messages are
/// never in the way.
pub open spec fn command_valid(cmd: Command) -> bool {
    match cmd {
        Command::ViewPlayer { ident } => is_name(ident@),
        Command::CheckNameAvailable { name } => is_name(name@),
        Command::Fight { name, .. } => is_name(name@),
        Command::ViewGuild { guild_ident } => is_name(guild_ident@),
        Command::GuildFound { name } => is_name(name@),
        Command::GuildInvitePlayer { name } => is_name(name@),
        Command::GuildKickPlayer { name } => is_name(name@),
        Command::GuildSetLeader { name } => is_name(name@),
        Command::GuildToggleOfficer { name } => is_name(name@),
        Command::GuildAttack { guild } => is_name(guild@),
        Command::SendMessage { to, .. } => is_name(to@),
        Command::Whisper { player_name, .. } => is_name(player_name@),
        Command::SetLanguage { language } => is_name(language@),
        _ => true,
    }
}

/// What `cmd` encodes to: its request when its arguments are valid, and no
/// request otherwise.
pub open spec fn encode_spec(cmd: Command) -> Result<RequestText, EncodeError> {
    if command_valid(cmd) {
        Ok(RequestText { name: command_name(cmd), args: command_args(cmd) })
    } else {
        Err(EncodeError::InvalidArgument)
    }
}

/// A request as it travels: the name, a `:`, and the arguments with `/`
/// between them.
pub open spec fn wire_spec(request: RequestText) -> Seq<u8> {
    request.name.push(COLON) + join_spec(request.args, SLASH)
}

/// The text of a boolean argument.
fn flag(set: bool) -> (text: Vec<u8>)
    ensures
        text@ == flag_text(set),
{
    let mut text: Vec<u8> = Vec::new();
    if set {
        text.push(ONE);
    } else {
        text.push(ZERO);
    }
    assert(text@ =~= flag_text(set));
    text
}

/// An empty list of arguments.
fn args0() -> (args: Vec<Vec<u8>>)
    ensures
        views(args@) == Seq::<Seq<u8>>::empty(),
{
    let args: Vec<Vec<u8>> = Vec::new();
    assert(views(args@) =~= Seq::<Seq<u8>>::empty());
    args
}

/// A list of one argument.
fn args1(a: Vec<u8>) -> (args: Vec<Vec<u8>>)
    ensures
        views(args@) == seq![a@],
{
    let mut args: Vec<Vec<u8>> = Vec::new();
    args.push(a);
    assert(views(args@) =~= seq![a@]);
    args
}

/// A list of two arguments.
fn args2(a: Vec<u8>, b: Vec<u8>) -> (args: Vec<Vec<u8>>)
    ensures
        views(args@) == seq![a@, b@],
{
    let mut args: Vec<Vec<u8>> = Vec::new();
    args.push(a);
    args.push(b);
    assert(views(args@) =~= seq![a@, b@]);
    args
}

/// A list of four arguments.
fn args4(a: Vec<u8>, b: Vec<u8>, c: Vec<u8>, d: Vec<u8>) -> (args: Vec<Vec<u8>>)
    ensures
        views(args@) == seq![a@, b@, c@, d@],
{
    let mut args: Vec<Vec<u8>> = Vec::new();
    args.push(a);
    args.push(b);
    args.push(c);
    args.push(d);
    assert(views(args@) =~= seq![a@, b@, c@, d@]);
    args
}

/// The arguments that ask for one page of a hall of fame.
fn ranking(page: usize) -> (args: Vec<Vec<u8>>)
    ensures
        views(args@) == ranking_args(page),
{
    let middle: u128 = page as u128 * RANKS_PER_PAGE + RANKS_AROUND + 1;
    args4(format_u128(middle), Vec::new(), format_u128(RANKS_AROUND), format_u128(RANKS_AROUND))
}

/// Whether `name` can stand as a name among the arguments of a request.
pub fn check_name(name: &[u8]) -> (valid: bool)
    ensures
        valid == is_name(name@),
{
    name.len() > 0 && !contains_byte(name, SLASH)
}

/// Whether the arguments of `cmd` can be put on the wire: every name among
/// them is a name.
pub fn validate(cmd: &Command) -> (valid: bool)
    ensures
        valid == command_valid(*cmd),
{
    match cmd {
        Command::ViewPlayer { ident } => check_name(ident.as_slice()),
        Command::CheckNameAvailable { name } => check_name(name.as_slice()),
        Command::Fight { name, .. } => check_name(name.as_slice()),
        Command::ViewGuild { guild_ident } => check_name(guild_ident.as_slice()),
        Command::GuildFound { name } => check_name(name.as_slice()),
        Command::GuildInvitePlayer { name } => check_name(name.as_slice()),
        Command::GuildKickPlayer { name } => check_name(name.as_slice()),
        Command::GuildSetLeader { name } => check_name(name.as_slice()),
        Command::GuildToggleOfficer { name } => check_name(name.as_slice()),
        Command::GuildAttack { guild } => check_name(guild.as_slice()),
        Command::SendMessage { to, .. } => check_name(to.as_slice()),
        Command::Whisper { player_name, .. } => check_name(player_name.as_slice()),
        Command::SetLanguage { language } => check_name(language.as_slice()),
        _ => true,
    }
}

/// The name of the server command that carries out `cmd`.
fn name_of(cmd: &Command) -> (name: Vec<u8>)
    ensures
        name@ == command_name(*cmd),
{
    let word = match cmd {
        Command::Update => "Poll",
        Command::HallOfFamePage { .. } => "PlayerGetHallOfFame",
        Command::HallOfFameFortressPage { .. } => "FortressGetHallOfFame",
        Command::HallOfFameGroupPage { .. } => "GroupGetHallOfFame",
        Command::HallOfFameUnderworldPage { .. } => "UnderworldGetHallOfFame",
        Command::HallOfFamePetsPage { .. } => "PetsGetHallOfFame",
        Command::ViewPlayer { .. } => "PlayerLookAt",
        Command::BuyBeer => "PlayerBeerBuy",
        Command::StartQuest { .. } => "PlayerAdventureStart",
        Command::CancelQuest => "PlayerAdventureStop",
        Command::FinishQuest { .. } => "PlayerAdventureFinished",
        Command::StartWork { .. } => "PlayerWorkStart",
        Command::CancelWork => "PlayerWorkStop",
        Command::FinishWork => "PlayerWorkFinished",
        Command::CheckNameAvailable { .. } => "AccountCheck",
        Command::BuyMount { .. } => "PlayerMountBuy",
        Command::IncreaseAttribute { .. } => "PlayerAttributIncrease",
        Command::RemovePotion { .. } => "PlayerPotionKill",
        Command::CheckArena => "PlayerArenaEnemy",
        Command::Fight { .. } => "PlayerArenaFight",
        Command::CollectCalendar => "PlayerOpenCalender",
        Command::ViewGuild { .. } => "GroupLookAt",
        Command::GuildFound { .. } => "GroupFound",
        Command::GuildInvitePlayer { .. } => "GroupInviteMember",
        Command::GuildKickPlayer { .. } => "GroupRemoveMember",
        Command::GuildSetLeader { .. } => "GroupSetLeader",
        Command::GuildToggleOfficer { .. } => "GroupSetOfficer",
        Command::GuildLoadMushrooms => "GroupIncreaseBuilding",
        Command::GuildIncreaseSkill { .. } => "GroupSkillIncrease",
        Command::GuildJoinAttack => "GroupReadyAttack",
        Command::GuildJoinDefense => "GroupReadyDefense",
        Command::GuildAttack { .. } => "GroupAttackDeclare",
        Command::GuildRaid => "GroupRaidDeclare",
        Command::GuildPortalBattle => "GroupPortalFight",
        Command::GuildGetFightableTargets => "GroupFightableTargets",
        Command::GuildPetBattle { .. } => "GroupPetBattle",
        Command::ToiletFlush => "PlayerToilettFlush",
        Command::ToiletOpen => "PlayerToilettOpenWithKey",
        Command::ToiletDrop { .. } => "PlayerToilettLoad",
        Command::MessageOpen { .. } => "PlayerMessageView",
        Command::MessageDelete { .. } => "PlayerMessageDelete",
        Command::SendMessage { .. } => "PlayerMessageSend",
        Command::Whisper { .. } => "PlayerMessageWhisper",
        Command::SetLanguage { .. } => "AccountSetLanguage",
        Command::ViewScrapbook => "PlayerPollScrapbook",
        Command::ViewPet { .. } => "PetsGetStats",
        Command::UnlockFeature { .. } => "UnlockFeature",
        Command::FightPortal => "PlayerPortalBattle",
        Command::SwapManequin => "PlayerDummySwap",
        Command::GambleSilver { .. } => "PlayerGambleGold",
        Command::GambleMushrooms { .. } => "PlayerGambleCoins",
        Command::SpinWheelOfFortune { .. } => "WheelOfFortune",
        Command::BuyGoldFrame => "PlayerGoldFrameBuy",
        Command::IdleSacrifice => "IdlePrestige",
        Command::BlockGuildInvites { .. } => "PlayerSetNoGroupInvite",
        Command::ShowTips { .. } => "PlayerTutorialStatus",
        Command::FortressBuild { .. } => "FortressBuildStart",
        Command::FortressBuildCancel { .. } => "FortressBuildStop",
        Command::FortressBuildFinish { .. } => "FortressBuildFinished",
        Command::FortressGather { .. } => "FortressGather",
        Command::FortressBuildUnit { .. } => "FortressBuildUnitStart",
        Command::FortressGemStoneSearch => "FortressGemstoneStart",
        Command::FortressGemStoneSearchCancel => "FortressGemStoneStop",
        Command::FortressUpgradeHallOfKnights => "FortressGroupBonusUpgrade",
        Command::FortressNewEnemy { .. } => "FortressEnemy",
        Command::FortressSetCAEnemy { .. } => "FortressEnemy",
        Command::UnderworldCollect { .. } => "UnderworldGather",
        Command::UnderworldUnitUpgrade { .. } => "UnderworldUpgradeUnit",
        Command::UnderworldUpgradeCancel { .. } => "UnderworldBuildStop",
        Command::UnderworldUpgradeFinish { .. } => "UnderworldBuildFinished",
        Command::HellevatorEnter => "GroupTournamentJoin",
        Command::HellevatorViewGuildRanking => "GroupTournamentRankingOwnGroup",
        Command::HellevatorRefreshShop => "GroupTournamentMerchantReroll",
        Command::HellevatorClaimDaily => "GroupTournamentClaimDaily",
        Command::HellevatorClaimDailyYesterday => "GroupTournamentClaimDailyYesterday",
        Command::HellevatorClaimFinal => "GroupTournamentClaim",
        Command::HellevatorPreviewRewards => "GroupTournamentPreview",
    };
    word.as_bytes_vec()
}

/// The arguments of `cmd`.
fn args_of(cmd: &Command) -> (args: Vec<Vec<u8>>)
    requires
        command_valid(*cmd),
    ensures
        views(args@) == command_args(*cmd),
{
    match cmd {
        Command::HallOfFamePage { page } => ranking(*page),
        Command::HallOfFameFortressPage { page } => ranking(*page),
        Command::HallOfFameGroupPage { page } => ranking(*page),
        Command::HallOfFameUnderworldPage { page } => ranking(*page),
        Command::HallOfFamePetsPage { page } => ranking(*page),
        Command::ViewPlayer { ident } => args1(copy_bytes(ident.as_slice())),
        Command::StartQuest { quest_pos, overwrite_inv } => args2(
            format_u128(*quest_pos as u128 + 1),
            flag(*overwrite_inv),
        ),
        Command::FinishQuest { skip } => args1(
            format_u128(match skip {
                Some(how) => how.to_code() as u128,
                None => 0,
            }),
        ),
        Command::StartWork { hours } => args1(format_u128(*hours as u128)),
        Command::CheckNameAvailable { name } => args1(copy_bytes(name.as_slice())),
        Command::BuyMount { mount } => args1(format_u128(mount.to_code() as u128)),
        Command::IncreaseAttribute { attribute, increase_to } => args2(
            format_u128(attribute.to_code() as u128),
            format_u128(*increase_to as u128),
        ),
        Command::RemovePotion { pos } => args1(format_u128(*pos as u128 + 1)),
        Command::Fight { name, use_mushroom } => args2(
            copy_bytes(name.as_slice()),
            flag(*use_mushroom),
        ),
        Command::ViewGuild { guild_ident } => args1(copy_bytes(guild_ident.as_slice())),
        Command::GuildFound { name } => args1(copy_bytes(name.as_slice())),
        Command::GuildInvitePlayer { name } => args1(copy_bytes(name.as_slice())),
        Command::GuildKickPlayer { name } => args1(copy_bytes(name.as_slice())),
        Command::GuildSetLeader { name } => args1(copy_bytes(name.as_slice())),
        Command::GuildToggleOfficer { name } => args1(copy_bytes(name.as_slice())),
        Command::GuildLoadMushrooms => args1(format_u128(0)),
        Command::GuildIncreaseSkill { skill, current } => args2(
            format_u128(skill.to_code() as u128),
            format_u128(*current as u128),
        ),
        Command::GuildAttack { guild } => args1(copy_bytes(guild.as_slice())),
        Command::GuildPetBattle { use_mushroom } => args1(flag(*use_mushroom)),
        Command::ToiletDrop { inventory, pos } => args2(
            format_u128(inventory.to_code() as u128),
            format_u128(*pos as u128 + 1),
        ),
        Command::MessageOpen { pos } => args1(format_i64(*pos as i64 + 1)),
        Command::MessageDelete { pos } => args1(format_i64(*pos as i64 + 1)),
        Command::SendMessage { to, msg } => args2(
            copy_bytes(to.as_slice()),
            escape(msg.as_slice()),
        ),
        Command::Whisper { player_name, message } => args2(
            copy_bytes(player_name.as_slice()),
            escape(message.as_slice()),
        ),
        Command::SetLanguage { language } => args1(copy_bytes(language.as_slice())),
        Command::ViewPet { pet_id } => args1(format_u128(*pet_id as u128)),
        Command::UnlockFeature { unlockable } => args1(format_u128(unlockable.to_code() as u128)),
        Command::SwapManequin => args2(format_u128(301), format_u128(1)),
        Command::GambleSilver { amount } => args1(format_u128(*amount as u128)),
        Command::GambleMushrooms { amount } => args1(format_u128(*amount as u128)),
        Command::SpinWheelOfFortune { payment } => args1(format_u128(payment.to_code() as u128)),
        Command::IdleSacrifice => args1(format_u128(0)),
        Command::BlockGuildInvites { block_invites } => args1(flag(*block_invites)),
        Command::ShowTips { show_tips } => args1(flag(*show_tips)),
        Command::FortressBuild { building } => args2(
            format_u128(building.to_code() as u128),
            format_u128(0),
        ),
        Command::FortressBuildCancel { building } => args1(
            format_u128(building.to_code() as u128),
        ),
        Command::FortressBuildFinish { building, mushrooms } => args2(
            format_u128(building.to_code() as u128),
            format_u128(*mushrooms as u128),
        ),
        Command::FortressGather { resource } => args1(format_u128(resource.to_code() as u128)),
        Command::FortressBuildUnit { unit, count } => args2(
            format_u128(unit.to_code() as u128),
            format_u128(*count as u128),
        ),
        Command::FortressGemStoneSearchCancel => args1(format_u128(0)),
        Command::FortressNewEnemy { use_mushroom } => args1(flag(*use_mushroom)),
        Command::FortressSetCAEnemy { msg_id } => args2(
            format_u128(0),
            format_u128(*msg_id as u128),
        ),
        Command::UnderworldCollect { resource } => args1(format_u128(resource.to_code() as u128)),
        Command::UnderworldUnitUpgrade { unit } => args1(format_u128(unit.to_code() as u128)),
        Command::UnderworldUpgradeCancel { building } => args1(
            format_u128(building.to_code() as u128),
        ),
        Command::UnderworldUpgradeFinish { building, mushrooms } => args2(
            format_u128(building.to_code() as u128),
            format_u128(*mushrooms as u128),
        ),
        _ => args0(),
    }
}

/// Encodes a command.
///
/// Succeeds exactly when the arguments of the command are valid, and then
/// yields the name and the arguments that the tables above give. Nothing is
/// ever put in the place of an argument that is not valid.
pub fn encode(cmd: &Command) -> (result: Result<EncodedRequest, EncodeError>)
    ensures
        match result {
            Ok(request) => encode_spec(*cmd) == Ok::<RequestText, EncodeError>(request@),
            Err(e) => encode_spec(*cmd) == Err::<RequestText, EncodeError>(e),
        },
{
    if !validate(cmd) {
        return Err(EncodeError::InvalidArgument);
    }
    let name = name_of(cmd);
    let args = args_of(cmd);
    Ok(EncodedRequest { name, args })
}

/// Whether `text` can stand as one argument of a request: it holds no `/`,
/// so that it is not taken for more than one.
pub open spec fn wire_clean(text: Seq<u8>) -> bool {
    !text.contains(SLASH)
}

/// A number in decimal is clean.
pub proof fn lemma_decimal_clean(n: nat)
    ensures
        wire_clean(decimal(n)),
{
    lemma_decimal_digits(n);
    if decimal(n).contains(SLASH) {
        let k = choose|k: int| 0 <= k < decimal(n).len() && decimal(n)[k] == SLASH;
        assert(is_digit(decimal(n)[k]));
    }
}

/// The arguments that ask for a page of a hall of fame are clean.
pub proof fn lemma_ranking_clean(page: usize)
    ensures
        forall|i: int|
            0 <= i < ranking_args(page).len() ==> wire_clean(#[trigger] ranking_args(page)[i]),
{
    lemma_decimal_clean((page * RANKS_PER_PAGE + RANKS_AROUND + 1) as nat);
    lemma_decimal_clean(RANKS_AROUND as nat);
}

/// A signed number in decimal is clean.
pub proof fn lemma_int_text_clean(v: int)
    ensures
        wire_clean(int_text(v)),
{
    if v < 0 {
        lemma_decimal_clean((-v) as nat);
        let digits = decimal((-v) as nat);
        if int_text(v).contains(SLASH) {
            let k = choose|k: int| 0 <= k < int_text(v).len() && int_text(v)[k] == SLASH;
            assert(k > 0);
            assert(int_text(v)[k] == digits[k - 1]);
            assert(digits.contains(SLASH));
        }
    } else {
        lemma_decimal_clean(v as nat);
    }
}

/// Escaped text is clean.
pub proof fn lemma_escape_clean(text: Seq<u8>)
    ensures
        wire_clean(escape_spec(text)),
{
    lemma_escape_is_safe(text);
    if escape_spec(text).contains(SLASH) {
        let k = choose|k: int| 0 <= k < escape_spec(text).len() && escape_spec(text)[k] == SLASH;
        assert(is_reserved(escape_spec(text)[k]));
    }
}

/// The text of a flag is clean.
pub proof fn lemma_flag_clean(set: bool)
    ensures
        wire_clean(flag_text(set)),
{
}

/// Every argument of a valid command is clean: no argument holds the byte
/// that separates arguments.
pub proof fn lemma_args_are_clean(cmd: Command)
    requires
        command_valid(cmd),
    ensures
        forall|i: int|
            0 <= i < command_args(cmd).len() ==> wire_clean(#[trigger] command_args(cmd)[i]),
{
    match cmd {
        Command::HallOfFamePage { page } => {
            lemma_ranking_clean(page);
        },
        Command::HallOfFameFortressPage { page } => {
            lemma_ranking_clean(page);
        },
        Command::HallOfFameGroupPage { page } => {
            lemma_ranking_clean(page);
        },
        Command::HallOfFameUnderworldPage { page } => {
            lemma_ranking_clean(page);
        },
        Command::HallOfFamePetsPage { page } => {
            lemma_ranking_clean(page);
        },
        Command::StartQuest { quest_pos, overwrite_inv } => {
            lemma_decimal_clean((quest_pos + 1) as nat);
            lemma_flag_clean(overwrite_inv);
        },
        Command::FinishQuest { skip } => {
            lemma_decimal_clean(
                (match skip {
                    Some(how) => how.code(),
                    None => 0u8,
                }) as nat,
            );
        },
        Command::StartWork { hours } => {
            lemma_decimal_clean(hours as nat);
        },
        Command::BuyMount { mount } => {
            lemma_decimal_clean(mount.code() as nat);
        },
        Command::IncreaseAttribute { attribute, increase_to } => {
            lemma_decimal_clean(attribute.code() as nat);
            lemma_decimal_clean(increase_to as nat);
        },
        Command::RemovePotion { pos } => {
            lemma_decimal_clean((pos + 1) as nat);
        },
        Command::Fight { use_mushroom, .. } => {
            lemma_flag_clean(use_mushroom);
        },
        Command::GuildLoadMushrooms => {
            lemma_decimal_clean(0);
        },
        Command::GuildIncreaseSkill { skill, current } => {
            lemma_decimal_clean(skill.code() as nat);
            lemma_decimal_clean(current as nat);
        },
        Command::GuildPetBattle { use_mushroom } => {
            lemma_flag_clean(use_mushroom);
        },
        Command::ToiletDrop { inventory, pos } => {
            lemma_decimal_clean(inventory.code() as nat);
            lemma_decimal_clean((pos + 1) as nat);
        },
        Command::MessageOpen { pos } => {
            lemma_int_text_clean(pos + 1);
        },
        Command::MessageDelete { pos } => {
            lemma_int_text_clean(pos + 1);
        },
        Command::SendMessage { msg, .. } => {
            lemma_escape_clean(msg@);
        },
        Command::Whisper { message, .. } => {
            lemma_escape_clean(message@);
        },
        Command::ViewPet { pet_id } => {
            lemma_decimal_clean(pet_id as nat);
        },
        Command::UnlockFeature { unlockable } => {
            lemma_decimal_clean(unlockable.code() as nat);
        },
        Command::SwapManequin => {
            lemma_decimal_clean(301);
            lemma_decimal_clean(1);
        },
        Command::GambleSilver { amount } => {
            lemma_decimal_clean(amount as nat);
        },
        Command::GambleMushrooms { amount } => {
            lemma_decimal_clean(amount as nat);
        },
        Command::SpinWheelOfFortune { payment } => {
            lemma_decimal_clean(payment.code() as nat);
        },
        Command::IdleSacrifice => {
            lemma_decimal_clean(0);
        },
        Command::BlockGuildInvites { block_invites } => {
            lemma_flag_clean(block_invites);
        },
        Command::ShowTips { show_tips } => {
            lemma_flag_clean(show_tips);
        },
        Command::FortressBuild { building } => {
            lemma_decimal_clean(building.code() as nat);
            lemma_decimal_clean(0);
        },
        Command::FortressBuildCancel { building } => {
            lemma_decimal_clean(building.code() as nat);
        },
        Command::FortressBuildFinish { building, mushrooms } => {
            lemma_decimal_clean(building.code() as nat);
            lemma_decimal_clean(mushrooms as nat);
        },
        Command::FortressGather { resource } => {
            lemma_decimal_clean(resource.code() as nat);
        },
        Command::FortressBuildUnit { unit, count } => {
            lemma_decimal_clean(unit.code() as nat);
            lemma_decimal_clean(count as nat);
        },
        Command::FortressGemStoneSearchCancel => {
            lemma_decimal_clean(0);
        },
        Command::FortressNewEnemy { use_mushroom } => {
            lemma_flag_clean(use_mushroom);
        },
        Command::FortressSetCAEnemy { msg_id } => {
            lemma_decimal_clean(0);
            lemma_decimal_clean(msg_id as nat);
        },
        Command::UnderworldCollect { resource } => {
            lemma_decimal_clean(resource.code() as nat);
        },
        Command::UnderworldUnitUpgrade { unit } => {
            lemma_decimal_clean(unit.code() as nat);
        },
        Command::UnderworldUpgradeCancel { building } => {
            lemma_decimal_clean(building.code() as nat);
        },
        Command::UnderworldUpgradeFinish { building, mushrooms } => {
            lemma_decimal_clean(building.code() as nat);
            lemma_decimal_clean(mushrooms as nat);
        },
        _ => {},
    }
}

/// The bytes of a word of plain ASCII letters are its letters, and none of
/// them is reserved.
proof fn lemma_plain_word(word: &str)
    requires
        word@.len() > 0,
        forall|i: int| 0 <= i < word@.len() ==> 'A' <= #[trigger] word@[i] <= 'z',
    ensures
        is_plain_text(word.spec_bytes()),
{
    assert(is_ascii(word));
    is_ascii_spec_bytes(word);
    assert forall|i: int| 0 <= i < word.spec_bytes().len() implies !is_reserved(
        #[trigger] word.spec_bytes()[i],
    ) by {
        assert(word.spec_bytes()[i] == word@[i] as u8);
    }
}

/// The name of every command is made of letters only, so it holds no byte
/// that takes a request apart.
pub proof fn lemma_name_is_plain(cmd: Command)
    ensures
        is_plain_text(command_name(cmd)),
{
    match cmd {
        Command::Update => {
            reveal_strlit("Poll");
            lemma_plain_word("Poll");
        },
        Command::HallOfFamePage { .. } => {
            reveal_strlit("PlayerGetHallOfFame");
            lemma_plain_word("PlayerGetHallOfFame");
        },
        Command::HallOfFameFortressPage { .. } => {
            reveal_strlit("FortressGetHallOfFame");
            lemma_plain_word("FortressGetHallOfFame");
        },
        Command::HallOfFameGroupPage { .. } => {
            reveal_strlit("GroupGetHallOfFame");
            lemma_plain_word("GroupGetHallOfFame");
        },
        Command::HallOfFameUnderworldPage { .. } => {
            reveal_strlit("UnderworldGetHallOfFame");
            lemma_plain_word("UnderworldGetHallOfFame");
        },
        Command::HallOfFamePetsPage { .. } => {
            reveal_strlit("PetsGetHallOfFame");
            lemma_plain_word("PetsGetHallOfFame");
        },
        Command::ViewPlayer { .. } => {
            reveal_strlit("PlayerLookAt");
            lemma_plain_word("PlayerLookAt");
        },
        Command::BuyBeer => {
            reveal_strlit("PlayerBeerBuy");
            lemma_plain_word("PlayerBeerBuy");
        },
        Command::StartQuest { .. } => {
            reveal_strlit("PlayerAdventureStart");
            lemma_plain_word("PlayerAdventureStart");
        },
        Command::CancelQuest => {
            reveal_strlit("PlayerAdventureStop");
            lemma_plain_word("PlayerAdventureStop");
        },
        Command::FinishQuest { .. } => {
            reveal_strlit("PlayerAdventureFinished");
            lemma_plain_word("PlayerAdventureFinished");
        },
        Command::StartWork { .. } => {
            reveal_strlit("PlayerWorkStart");
            lemma_plain_word("PlayerWorkStart");
        },
        Command::CancelWork => {
            reveal_strlit("PlayerWorkStop");
            lemma_plain_word("PlayerWorkStop");
        },
        Command::FinishWork => {
            reveal_strlit("PlayerWorkFinished");
            lemma_plain_word("PlayerWorkFinished");
        },
        Command::CheckNameAvailable { .. } => {
            reveal_strlit("AccountCheck");
            lemma_plain_word("AccountCheck");
        },
        Command::BuyMount { .. } => {
            reveal_strlit("PlayerMountBuy");
            lemma_plain_word("PlayerMountBuy");
        },
        Command::IncreaseAttribute { .. } => {
            reveal_strlit("PlayerAttributIncrease");
            lemma_plain_word("PlayerAttributIncrease");
        },
        Command::RemovePotion { .. } => {
            reveal_strlit("PlayerPotionKill");
            lemma_plain_word("PlayerPotionKill");
        },
        Command::CheckArena => {
            reveal_strlit("PlayerArenaEnemy");
            lemma_plain_word("PlayerArenaEnemy");
        },
        Command::Fight { .. } => {
            reveal_strlit("PlayerArenaFight");
            lemma_plain_word("PlayerArenaFight");
        },
        Command::CollectCalendar => {
            reveal_strlit("PlayerOpenCalender");
            lemma_plain_word("PlayerOpenCalender");
        },
        Command::ViewGuild { .. } => {
            reveal_strlit("GroupLookAt");
            lemma_plain_word("GroupLookAt");
        },
        Command::GuildFound { .. } => {
            reveal_strlit("GroupFound");
            lemma_plain_word("GroupFound");
        },
        Command::GuildInvitePlayer { .. } => {
            reveal_strlit("GroupInviteMember");
            lemma_plain_word("GroupInviteMember");
        },
        Command::GuildKickPlayer { .. } => {
            reveal_strlit("GroupRemoveMember");
            lemma_plain_word("GroupRemoveMember");
        },
        Command::GuildSetLeader { .. } => {
            reveal_strlit("GroupSetLeader");
            lemma_plain_word("GroupSetLeader");
        },
        Command::GuildToggleOfficer { .. } => {
            reveal_strlit("GroupSetOfficer");
            lemma_plain_word("GroupSetOfficer");
        },
        Command::GuildLoadMushrooms => {
            reveal_strlit("GroupIncreaseBuilding");
            lemma_plain_word("GroupIncreaseBuilding");
        },
        Command::GuildIncreaseSkill { .. } => {
            reveal_strlit("GroupSkillIncrease");
            lemma_plain_word("GroupSkillIncrease");
        },
        Command::GuildJoinAttack => {
            reveal_strlit("GroupReadyAttack");
            lemma_plain_word("GroupReadyAttack");
        },
        Command::GuildJoinDefense => {
            reveal_strlit("GroupReadyDefense");
            lemma_plain_word("GroupReadyDefense");
        },
        Command::GuildAttack { .. } => {
            reveal_strlit("GroupAttackDeclare");
            lemma_plain_word("GroupAttackDeclare");
        },
        Command::GuildRaid => {
            reveal_strlit("GroupRaidDeclare");
            lemma_plain_word("GroupRaidDeclare");
        },
        Command::GuildPortalBattle => {
            reveal_strlit("GroupPortalFight");
            lemma_plain_word("GroupPortalFight");
        },
        Command::GuildGetFightableTargets => {
            reveal_strlit("GroupFightableTargets");
            lemma_plain_word("GroupFightableTargets");
        },
        Command::GuildPetBattle { .. } => {
            reveal_strlit("GroupPetBattle");
            lemma_plain_word("GroupPetBattle");
        },
        Command::ToiletFlush => {
            reveal_strlit("PlayerToilettFlush");
            lemma_plain_word("PlayerToilettFlush");
        },
        Command::ToiletOpen => {
            reveal_strlit("PlayerToilettOpenWithKey");
            lemma_plain_word("PlayerToilettOpenWithKey");
        },
        Command::ToiletDrop { .. } => {
            reveal_strlit("PlayerToilettLoad");
            lemma_plain_word("PlayerToilettLoad");
        },
        Command::MessageOpen { .. } => {
            reveal_strlit("PlayerMessageView");
            lemma_plain_word("PlayerMessageView");
        },
        Command::MessageDelete { .. } => {
            reveal_strlit("PlayerMessageDelete");
            lemma_plain_word("PlayerMessageDelete");
        },
        Command::SendMessage { .. } => {
            reveal_strlit("PlayerMessageSend");
            lemma_plain_word("PlayerMessageSend");
        },
        Command::Whisper { .. } => {
            reveal_strlit("PlayerMessageWhisper");
            lemma_plain_word("PlayerMessageWhisper");
        },
        Command::SetLanguage { .. } => {
            reveal_strlit("AccountSetLanguage");
            lemma_plain_word("AccountSetLanguage");
        },
        Command::ViewScrapbook => {
            reveal_strlit("PlayerPollScrapbook");
            lemma_plain_word("PlayerPollScrapbook");
        },
        Command::ViewPet { .. } => {
            reveal_strlit("PetsGetStats");
            lemma_plain_word("PetsGetStats");
        },
        Command::UnlockFeature { .. } => {
            reveal_strlit("UnlockFeature");
            lemma_plain_word("UnlockFeature");
        },
        Command::FightPortal => {
            reveal_strlit("PlayerPortalBattle");
            lemma_plain_word("PlayerPortalBattle");
        },
        Command::SwapManequin => {
            reveal_strlit("PlayerDummySwap");
            lemma_plain_word("PlayerDummySwap");
        },
        Command::GambleSilver { .. } => {
            reveal_strlit("PlayerGambleGold");
            lemma_plain_word("PlayerGambleGold");
        },
        Command::GambleMushrooms { .. } => {
            reveal_strlit("PlayerGambleCoins");
            lemma_plain_word("PlayerGambleCoins");
        },
        Command::SpinWheelOfFortune { .. } => {
            reveal_strlit("WheelOfFortune");
            lemma_plain_word("WheelOfFortune");
        },
        Command::BuyGoldFrame => {
            reveal_strlit("PlayerGoldFrameBuy");
            lemma_plain_word("PlayerGoldFrameBuy");
        },
        Command::IdleSacrifice => {
            reveal_strlit("IdlePrestige");
            lemma_plain_word("IdlePrestige");
        },
        Command::BlockGuildInvites { .. } => {
            reveal_strlit("PlayerSetNoGroupInvite");
            lemma_plain_word("PlayerSetNoGroupInvite");
        },
        Command::ShowTips { .. } => {
            reveal_strlit("PlayerTutorialStatus");
            lemma_plain_word("PlayerTutorialStatus");
        },
        Command::FortressBuild { .. } => {
            reveal_strlit("FortressBuildStart");
            lemma_plain_word("FortressBuildStart");
        },
        Command::FortressBuildCancel { .. } => {
            reveal_strlit("FortressBuildStop");
            lemma_plain_word("FortressBuildStop");
        },
        Command::FortressBuildFinish { .. } => {
            reveal_strlit("FortressBuildFinished");
            lemma_plain_word("FortressBuildFinished");
        },
        Command::FortressGather { .. } => {
            reveal_strlit("FortressGather");
            lemma_plain_word("FortressGather");
        },
        Command::FortressBuildUnit { .. } => {
            reveal_strlit("FortressBuildUnitStart");
            lemma_plain_word("FortressBuildUnitStart");
        },
        Command::FortressGemStoneSearch => {
            reveal_strlit("FortressGemstoneStart");
            lemma_plain_word("FortressGemstoneStart");
        },
        Command::FortressGemStoneSearchCancel => {
            reveal_strlit("FortressGemStoneStop");
            lemma_plain_word("FortressGemStoneStop");
        },
        Command::FortressUpgradeHallOfKnights => {
            reveal_strlit("FortressGroupBonusUpgrade");
            lemma_plain_word("FortressGroupBonusUpgrade");
        },
        Command::FortressNewEnemy { .. } => {
            reveal_strlit("FortressEnemy");
            lemma_plain_word("FortressEnemy");
        },
        Command::FortressSetCAEnemy { .. } => {
            reveal_strlit("FortressEnemy");
            lemma_plain_word("FortressEnemy");
        },
        Command::UnderworldCollect { .. } => {
            reveal_strlit("UnderworldGather");
            lemma_plain_word("UnderworldGather");
        },
        Command::UnderworldUnitUpgrade { .. } => {
            reveal_strlit("UnderworldUpgradeUnit");
            lemma_plain_word("UnderworldUpgradeUnit");
        },
        Command::UnderworldUpgradeCancel { .. } => {
            reveal_strlit("UnderworldBuildStop");
            lemma_plain_word("UnderworldBuildStop");
        },
        Command::UnderworldUpgradeFinish { .. } => {
            reveal_strlit("UnderworldBuildFinished");
            lemma_plain_word("UnderworldBuildFinished");
        },
        Command::HellevatorEnter => {
            reveal_strlit("GroupTournamentJoin");
            lemma_plain_word("GroupTournamentJoin");
        },
        Command::HellevatorViewGuildRanking => {
            reveal_strlit("GroupTournamentRankingOwnGroup");
            lemma_plain_word("GroupTournamentRankingOwnGroup");
        },
        Command::HellevatorRefreshShop => {
            reveal_strlit("GroupTournamentMerchantReroll");
            lemma_plain_word("GroupTournamentMerchantReroll");
        },
        Command::HellevatorClaimDaily => {
            reveal_strlit("GroupTournamentClaimDaily");
            lemma_plain_word("GroupTournamentClaimDaily");
        },
        Command::HellevatorClaimDailyYesterday => {
            reveal_strlit("GroupTournamentClaimDailyYesterday");
            lemma_plain_word("GroupTournamentClaimDailyYesterday");
        },
        Command::HellevatorClaimFinal => {
            reveal_strlit("GroupTournamentClaim");
            lemma_plain_word("GroupTournamentClaim");
        },
        Command::HellevatorPreviewRewards => {
            reveal_strlit("GroupTournamentPreview");
            lemma_plain_word("GroupTournamentPreview");
        },
    }
}

/// A request can be read back from the wire. The name is what stands before
/// the first `:`. Taking what stands after it apart at `/` gives the
/// arguments, or a single empty piece where the command has none.
pub proof fn lemma_wire_reads_back(cmd: Command)
    requires
        command_valid(cmd),
    ensures
        ({
            let name = command_name(cmd);
            let args = command_args(cmd);
            let wire = wire_spec(RequestText { name, args });
            &&& first_index(wire, COLON) == Some(name.len() as int)
            &&& wire.subrange(0, name.len() as int) == name
            &&& split_spec(wire.subrange(name.len() as int + 1, wire.len() as int), SLASH) == if args.len()
                > 0 {
                args
            } else {
                seq![Seq::<u8>::empty()]
            }
        }),
{
    let name = command_name(cmd);
    let args = command_args(cmd);
    let wire = wire_spec(RequestText { name, args });
    lemma_name_is_plain(cmd);
    assert forall|j: int| 0 <= j < name.len() implies wire[j] != COLON by {
        assert(wire[j] == name[j]);
        assert(!is_reserved(name[j]));
    }
    assert(wire[name.len() as int] == COLON);
    lemma_first_index_unique(wire, COLON, name.len() as int);
    assert(wire.subrange(0, name.len() as int) =~= name);
    assert(wire.subrange(name.len() as int + 1, wire.len() as int) =~= join_spec(args, SLASH));
    if args.len() > 0 {
        lemma_args_read_back(cmd);
    } else {
        assert(join_spec(args, SLASH) =~= Seq::<u8>::empty());
    }
}

/// The arguments of a valid command can be read back from the wire: taking
/// the joined arguments apart at `/` gives the arguments again.
pub proof fn lemma_args_read_back(cmd: Command)
    requires
        command_valid(cmd),
        command_args(cmd).len() > 0,
    ensures
        split_spec(join_spec(command_args(cmd), SLASH), SLASH) == command_args(cmd),
{
    lemma_args_are_clean(cmd);
    let args = command_args(cmd);
    assert forall|i: int| 0 <= i < args.len() implies !(#[trigger] args[i]).contains(SLASH) by {
        assert(wire_clean(args[i]));
    }
    lemma_split_of_join(args, SLASH);
}

impl EncodedRequest {
    /// The request as it travels.
    pub fn to_wire(&self) -> (wire: Vec<u8>)
        ensures
            wire@ == wire_spec(self@),
    {
        let mut wire = copy_bytes(self.name.as_slice());
        wire.push(COLON);
        let ghost head = wire@;
        let ghost all = views(self.args@);
        let mut i: usize = 0;
        assert(all.take(0) =~= Seq::<Seq<u8>>::empty());
        assert(head + join_spec(all.take(0), SLASH) =~= head);
        while i < self.args.len()
            invariant
                i <= self.args@.len(),
                all == views(self.args@),
                head == self.name@.push(COLON),
                wire@ == head + join_spec(all.take(i as int), SLASH),
            decreases self.args.len() - i,
        {
            let ghost before = wire@;
            if i > 0 {
                wire.push(SLASH);
            }
            let arg = &self.args[i];
            let mut j: usize = 0;
            let ghost stem = wire@;
            while j < arg.len()
                invariant
                    j <= arg@.len(),
                    wire@ == stem + arg@.take(j as int),
                decreases arg.len() - j,
            {
                wire.push(arg[j]);
                assert(arg@.take(j + 1) =~= arg@.take(j as int).push(arg@[j as int]));
                assert(wire@ =~= stem + arg@.take(j + 1));
                j += 1;
            }
            assert(arg@.take(arg@.len() as int) =~= arg@);
            proof {
                let next = all.take(i + 1);
                assert(next.drop_last() =~= all.take(i as int));
                assert(next.last() == arg@);
                if i == 0 {
                    assert(join_spec(next, SLASH) == arg@);
                    assert(wire@ =~= head + join_spec(next, SLASH));
                } else {
                    assert(join_spec(next, SLASH) == join_spec(all.take(i as int), SLASH).push(
                        SLASH,
                    ) + arg@);
                    assert(wire@ =~= head + join_spec(next, SLASH));
                }
            }
            i += 1;
        }
        assert(all.take(self.args@.len() as int) =~= all);
        wire
    }
}

} // verus!
