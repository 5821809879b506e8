use session_engine::assemble::apply;
use session_engine::decode::decode;
use session_engine::model::Field;
use session_engine::parts::Item;
use session_engine::state::{copy_record, GameState};

fn state_after(payload: &str, received_at: i64) -> GameState {
    let mut state = GameState::new();
    apply(&decode(payload.as_bytes()).unwrap(), received_at, &mut state).unwrap();
    state
}

#[test]
fn parts_read_under_their_names() {
    let state = state_after(
        "character:12|340|5600|7&tavern:3600|2|1|1700003600&equipment:1|1001|3~9|1009|12&dungeons:4|5|6&guild:77|3|900&social:8|1&fortress:3|100|200&underworld:2|50|60&unlockables:10|200|30",
        0,
    );
    let character = state.character().unwrap();
    assert_eq!((character.level, character.experience, character.silver, character.mushrooms), (12, 340, 5600, 7));
    let tavern = state.tavern().unwrap();
    assert_eq!((tavern.thirst, tavern.beers, tavern.activity, tavern.busy_until), (3600, 2, 1, 1_700_003_600));
    let dungeons = state.dungeons().unwrap();
    assert_eq!((dungeons.light, dungeons.shadow, dungeons.tower), (4, 5, 6));
    let guild = state.guild().unwrap();
    assert_eq!((guild.ident, guild.rank, guild.honor), (77, 3, 900));
    let social = state.social().unwrap();
    assert_eq!((social.friends, social.ignored), (8, 1));
    let fortress = state.fortress().unwrap();
    assert_eq!((fortress.level, fortress.wood, fortress.stone), (3, 100, 200));
    let underworld = state.underworld().unwrap();
    assert_eq!((underworld.level, underworld.souls, underworld.silver), (2, 50, 60));
    let unlockables = state.unlockables().unwrap();
    assert_eq!((unlockables.pets, unlockables.scrapbook, unlockables.achievements), (10, 200, 30));
    assert_eq!(
        state.items(),
        Some(vec![Item { slot: 1, ident: 1001, level: 3 }, Item { slot: 9, ident: 1009, level: 12 }])
    );
    for field in [Field::GuildHonor, Field::UnderworldSouls, Field::UnlockablesAchievements] {
        assert!(state.get(field).is_some());
    }
    assert_eq!(state.get(Field::GuildHonor), Some(900));
    assert_eq!(state.get(Field::UnderworldSouls), Some(50));
    assert_eq!(state.get(Field::UnlockablesAchievements), Some(30));
}

#[test]
fn parts_that_are_not_there_read_as_none() {
    let state = GameState::new();
    assert_eq!(state.character(), None);
    assert_eq!(state.tavern(), None);
    assert_eq!(state.dungeons(), None);
    assert_eq!(state.guild(), None);
    assert_eq!(state.social(), None);
    assert_eq!(state.fortress(), None);
    assert_eq!(state.underworld(), None);
    assert_eq!(state.unlockables(), None);
    assert_eq!(state.items(), None);
    state.check_valid();
}

#[test]
fn records_are_copied_number_by_number() {
    assert_eq!(copy_record(&vec![3, -1, i64::MAX]), vec![3, -1, i64::MAX]);
    assert_eq!(copy_record(&Vec::new()), Vec::<i64>::new());
}
