use session_engine::assemble::apply;
use session_engine::decode::decode;
use session_engine::error::AssembleError;
use session_engine::model::{Field, Model};
use session_engine::state::GameState;

fn merged(state: &mut GameState, payload: &str, received_at: i64) -> Result<Vec<Model>, AssembleError> {
    let store = decode(payload.as_bytes()).unwrap();
    apply(&store, received_at, state).map(|changes| changes.models())
}

fn numbers(state: &GameState) -> Vec<(i64, Option<Vec<i64>>)> {
    let all = [
        Model::Character,
        Model::Items,
        Model::Tavern,
        Model::Dungeons,
        Model::Guild,
        Model::Social,
        Model::Fortress,
        Model::Underworld,
        Model::Unlockables,
    ];
    all.iter().map(|m| (state.drift(), state.record(*m))).collect()
}

#[test]
fn a_new_state_holds_nothing() {
    let state = GameState::new();
    assert_eq!(state.drift(), 0);
    assert!(!state.has(Model::Character));
    assert_eq!(state.record(Model::Character), None);
    assert_eq!(state.get(Field::CharacterLevel), None);
}

#[test]
fn a_whole_part_replaces_what_was_there() {
    let mut state = GameState::new();
    let changes = merged(&mut state, "character:12|340|5600|7", 100).unwrap();
    assert_eq!(changes, vec![Model::Character]);
    assert_eq!(state.record(Model::Character), Some(vec![12, 340, 5600, 7]));
    assert_eq!(state.get(Field::CharacterLevel), Some(12));
    assert_eq!(state.get(Field::CharacterMushrooms), Some(7));
    let changes = merged(&mut state, "character:13|0|5600|7", 101).unwrap();
    assert_eq!(changes, vec![Model::Character]);
    assert_eq!(state.record(Model::Character), Some(vec![13, 0, 5600, 7]));
}

#[test]
fn a_field_sets_one_number_and_leaves_the_others() {
    let mut state = GameState::new();
    merged(&mut state, "character:12|340|5600|7", 100).unwrap();
    let changes = merged(&mut state, "character.silver:5000", 101).unwrap();
    assert_eq!(changes, vec![Model::Character]);
    assert_eq!(state.record(Model::Character), Some(vec![12, 340, 5000, 7]));
}

#[test]
fn the_clock_offset_is_server_time_minus_local_time() {
    let mut state = GameState::new();
    assert_eq!(merged(&mut state, "timestamp:1700000010", 1_700_000_000), Ok(vec![]));
    assert_eq!(state.drift(), 10);
    assert_eq!(merged(&mut state, "timestamp:1700000100", 1_700_000_103), Ok(vec![]));
    assert_eq!(state.drift(), -3);
    assert_eq!(merged(&mut state, "note:without a time", 1_700_000_200), Ok(vec![]));
    assert_eq!(state.drift(), -3);
}

#[test]
fn a_field_without_its_part_is_inconsistent() {
    let mut state = GameState::new();
    assert_eq!(merged(&mut state, "guild.honor:5", 100), Err(AssembleError::Inconsistent));
    assert_eq!(numbers(&state), numbers(&GameState::new()));
}

#[test]
fn a_whole_part_needs_no_other_part() {
    let whole = [
        ("tavern:100|0|0|0", Model::Tavern, vec![100, 0, 0, 0]),
        ("dungeons:4|5|6", Model::Dungeons, vec![4, 5, 6]),
        ("equipment:1|1001|3", Model::Items, vec![1, 1001, 3]),
        ("equipment:", Model::Items, vec![]),
        ("underworld:1|2|3", Model::Underworld, vec![1, 2, 3]),
        ("unlockables:7|8|9", Model::Unlockables, vec![7, 8, 9]),
    ];
    for (payload, model, numbers) in whole {
        let mut state = GameState::new();
        assert_eq!(merged(&mut state, payload, 100), Ok(vec![model]), "{}", payload);
        assert_eq!(state.record(model), Some(numbers));
        assert!(!state.has(Model::Character));
        assert!(!state.has(Model::Fortress));
    }
}

#[test]
fn a_part_and_its_field_merge_without_any_other_part() {
    for payload in ["tavern:100|0|0|0&tavern.beers:3", "tavern.beers:3&tavern:100|0|0|0"] {
        let mut state = GameState::new();
        assert_eq!(merged(&mut state, payload, 100), Ok(vec![Model::Tavern]));
        assert_eq!(state.record(Model::Tavern), Some(vec![100, 3, 0, 0]));
        assert_eq!(state.record(Model::Character), None);
    }
    let mut state = GameState::new();
    let payload = "underworld.souls:9&underworld:1|2|3&equipment:5|6|7&dungeons.tower:1&dungeons:0|0|0";
    assert_eq!(
        merged(&mut state, payload, 0),
        Ok(vec![Model::Items, Model::Dungeons, Model::Underworld])
    );
    assert_eq!(state.record(Model::Underworld), Some(vec![1, 9, 3]));
    assert_eq!(state.record(Model::Dungeons), Some(vec![0, 0, 1]));
}

#[test]
fn a_part_and_its_field_in_one_response_merge_in_either_order() {
    let mut first = GameState::new();
    let mut second = GameState::new();
    let a = merged(&mut first, "guild.honor:900&guild:77|3|100", 5).unwrap();
    let b = merged(&mut second, "guild:77|3|100&guild.honor:900", 5).unwrap();
    assert_eq!(a, vec![Model::Guild]);
    assert_eq!(a, b);
    assert_eq!(first.record(Model::Guild), Some(vec![77, 3, 900]));
    assert_eq!(numbers(&first), numbers(&second));
}

#[test]
fn a_value_of_the_wrong_shape_is_invalid() {
    let mut state = GameState::new();
    merged(&mut state, "character:12|340|5600|7", 100).unwrap();
    let before = numbers(&state);
    for payload in [
        "character:12|340|5600",
        "character:12|340|5600|7|",
        "character:12|x|5600|7",
        "character:",
        "character.level:",
        "character.level:twelve",
        "character.level:1|2",
        "timestamp:soon",
        "timestamp:",
        "equipment:1|2",
        "equipment:1|2|3~",
        "equipment:1|2|3|4",
        "equipment:1|2|x",
        "social:1",
    ] {
        assert_eq!(merged(&mut state, payload, 100), Err(AssembleError::InvalidValue), "{}", payload);
        assert_eq!(numbers(&state), before);
    }
}

#[test]
fn a_clock_offset_out_of_range_is_invalid() {
    let mut state = GameState::new();
    assert_eq!(merged(&mut state, "timestamp:9223372036854775807", -1), Err(AssembleError::InvalidValue));
    assert_eq!(merged(&mut state, "timestamp:-9223372036854775808", 1), Err(AssembleError::InvalidValue));
    assert_eq!(merged(&mut state, "timestamp:9223372036854775807", 0), Ok(vec![]));
    assert_eq!(state.drift(), i64::MAX);
}

#[test]
fn a_failure_leaves_every_part_as_it_was() {
    let mut state = GameState::new();
    merged(&mut state, "timestamp:50&character:12|340|5600|7&guild:1|2|3", 40).unwrap();
    let before = numbers(&state);
    let failed = merged(&mut state, "timestamp:90&character.level:13&guild:4|5|6&fortress.wood:1", 41);
    assert_eq!(failed, Err(AssembleError::Inconsistent));
    assert_eq!(numbers(&state), before);
    assert_eq!(state.drift(), 10);
}

#[test]
fn the_equipment_is_a_list_of_items() {
    let mut state = GameState::new();
    merged(&mut state, "character:1|0|0|0", 0).unwrap();
    assert_eq!(merged(&mut state, "equipment:1|1001|3~2|1002|5", 0), Ok(vec![Model::Items]));
    assert_eq!(state.record(Model::Items), Some(vec![1, 1001, 3, 2, 1002, 5]));
    assert_eq!(merged(&mut state, "equipment:", 0), Ok(vec![Model::Items]));
    assert_eq!(state.record(Model::Items), Some(vec![]));
    assert_eq!(merged(&mut state, "equipment:", 0), Ok(vec![]));
}

#[test]
fn only_what_differs_counts_as_changed() {
    let mut state = GameState::new();
    let payload = "timestamp:7&character:12|340|5600|7&tavern:100|2|0|0&tavern.beers:3";
    let first = merged(&mut state, payload, 0).unwrap();
    assert_eq!(first, vec![Model::Character, Model::Tavern]);
    let once = numbers(&state);
    let second = merged(&mut state, payload, 0).unwrap();
    assert_eq!(second, vec![]);
    assert_eq!(numbers(&state), once);
    assert_eq!(state.record(Model::Tavern), Some(vec![100, 3, 0, 0]));
}

#[test]
fn unknown_keys_change_nothing() {
    let mut state = GameState::new();
    merged(&mut state, "character:12|340|5600|7", 100).unwrap();
    let before = numbers(&state);
    let store = decode(b"brandnew:1|2|3&character.shoe_size:44&Character:1|1|1|1").unwrap();
    let changes = apply(&store, 500, &mut state).unwrap();
    assert!(changes.is_empty());
    assert!(!changes.contains(Model::Character));
    assert_eq!(numbers(&state), before);
    let nothing = decode(b"").unwrap();
    assert!(apply(&nothing, 500, &mut state).unwrap().is_empty());
    assert_eq!(numbers(&state), before);
}

#[test]
fn the_state_holds_the_most_recent_value_of_every_field() {
    let mut state = GameState::new();
    let run = [
        "timestamp:10&character:1|2|3|4&guild:5|6|7",
        "character.silver:30&news:x",
        "guild:50|60|70&guild.rank:61",
        "character.level:2&character.silver:31",
        "timestamp:99",
        "fortress:8|9|10&character.mushrooms:40",
    ];
    for (at, payload) in run.iter().enumerate() {
        merged(&mut state, payload, at as i64).unwrap();
    }
    assert_eq!(state.get(Field::CharacterLevel), Some(2));
    assert_eq!(state.get(Field::CharacterExperience), Some(2));
    assert_eq!(state.get(Field::CharacterSilver), Some(31));
    assert_eq!(state.get(Field::CharacterMushrooms), Some(40));
    assert_eq!(state.get(Field::GuildIdent), Some(50));
    assert_eq!(state.get(Field::GuildRank), Some(61));
    assert_eq!(state.get(Field::GuildHonor), Some(70));
    assert_eq!(state.get(Field::FortressStone), Some(10));
    assert_eq!(state.get(Field::TavernBeers), None);
    assert_eq!(state.drift(), 99 - 4);
}

#[test]
fn a_failed_response_in_a_run_counts_for_nothing() {
    let mut state = GameState::new();
    merged(&mut state, "character:1|2|3|4", 0).unwrap();
    assert!(merged(&mut state, "character.level:9&guild.honor:1", 1).is_err());
    assert!(merged(&mut state, "character.level:", 2).is_err());
    merged(&mut state, "character.experience:5", 3).unwrap();
    assert_eq!(state.record(Model::Character), Some(vec![1, 5, 3, 4]));
}

#[test]
fn states_and_stores_can_be_copied_and_compared() {
    let mut state = GameState::new();
    assert_eq!(state, GameState::default());
    merged(&mut state, "timestamp:9&character:1|2|3|4&equipment:1|2|3", 0).unwrap();
    let copy = state.clone();
    assert_eq!(copy, state);
    assert_eq!(copy.record(Model::Items), Some(vec![1, 2, 3]));
    assert_eq!(copy.drift(), 9);
    merged(&mut state, "character.level:2", 0).unwrap();
    assert_ne!(copy, state);
    assert_eq!(copy.get(Field::CharacterLevel), Some(1));

    let store = decode(b"a:1&b:2").unwrap();
    let same = store.clone();
    assert_eq!(same, store);
    assert_eq!(same.keys(), vec![b"a".to_vec(), b"b".to_vec()]);
    assert_ne!(store, decode(b"b:2&a:1").unwrap());

    let changes = apply(&store, 0, &mut state).unwrap();
    assert_eq!(changes.clone(), changes);
    assert!(changes.clone().is_empty());
}
