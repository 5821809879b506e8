use session_engine::decode::decode;
use session_engine::model::{all_models, clock_key_bytes, Field, Model};
use session_engine::routing::{is_recognized, route, unparsed_keys, MergePolicy, Route};

#[test]
fn the_tables_know_their_keys() {
    assert!(is_recognized(b"timestamp"));
    assert!(is_recognized(&clock_key_bytes()));
    for model in all_models() {
        assert!(is_recognized(&model.key_bytes()), "{:?}", model);
        for field in model.field_list() {
            assert!(is_recognized(&field.key_bytes()), "{:?}", field);
            assert_eq!(field.owner(), model);
            assert_eq!(model.field_list()[field.position()], field);
        }
        assert_eq!(all_models()[model.position()], model);
    }
    assert_eq!(Model::Character.key_bytes(), b"character".to_vec());
    assert_eq!(Model::Items.key_bytes(), b"equipment".to_vec());
    assert_eq!(Field::TavernBusyUntil.key_bytes(), b"tavern.busy_until".to_vec());
    assert_eq!(Field::CharacterLevel.key_bytes(), b"character.level".to_vec());
    assert!(Model::Items.holds_list());
    assert!(!Model::Guild.holds_list());
    assert!(!is_recognized(b""));
    assert!(!is_recognized(b"Timestamp"));
    assert!(!is_recognized(b"character.shoe_size"));
    assert!(!is_recognized(b"sessionid"));
    assert!(!is_recognized(b"error"));
}

#[test]
fn every_key_goes_one_way() {
    assert_eq!(route(b"timestamp"), Some(Route::Clock));
    assert_eq!(route(b"guild"), Some(Route::Whole(Model::Guild)));
    assert_eq!(route(b"equipment"), Some(Route::Whole(Model::Items)));
    assert_eq!(route(b"guild.honor"), Some(Route::Single(Field::GuildHonor)));
    assert_eq!(route(b"tavern.busy_until"), Some(Route::Single(Field::TavernBusyUntil)));
    assert_eq!(route(b"guild.honour"), None);
    assert_eq!(route(b"guild."), None);
    assert_eq!(route(b""), None);
    assert_eq!(Route::Clock.merge_policy(), None);
    assert_eq!(Route::Clock.owner(), None);
    assert_eq!(Route::Whole(Model::Guild).merge_policy(), Some(MergePolicy::Replace));
    assert_eq!(Route::Whole(Model::Guild).owner(), Some(Model::Guild));
    assert_eq!(Route::Single(Field::GuildHonor).merge_policy(), Some(MergePolicy::Patch));
    assert_eq!(Route::Single(Field::GuildHonor).owner(), Some(Model::Guild));
    let mut keys: Vec<Vec<u8>> = vec![Route::Clock.key_bytes()];
    for model in all_models() {
        assert_eq!(route(&model.key_bytes()), Some(Route::Whole(model)));
        keys.push(Route::Whole(model).key_bytes());
        for field in model.field_list() {
            assert_eq!(route(&field.key_bytes()), Some(Route::Single(field)));
            keys.push(Route::Single(field).key_bytes());
        }
    }
    assert_eq!(keys.len(), 35);
    keys.sort();
    keys.dedup();
    assert_eq!(keys.len(), 35);
}

#[test]
fn keys_outside_the_tables_can_be_listed() {
    let store = decode(b"news:1&character:1|2|3|4&zzz:&timestamp:4&character.hat:2").unwrap();
    assert_eq!(unparsed_keys(&store), vec![b"news".to_vec(), b"zzz".to_vec(), b"character.hat".to_vec()]);
    assert_eq!(unparsed_keys(&decode(b"").unwrap()), Vec::<Vec<u8>>::new());
}
