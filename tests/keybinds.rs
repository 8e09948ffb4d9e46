use bevy_test::config::{Config, KeybindConfig};
use bevy_test::keybinds::{
    build_keybind_map, key_from_str, lookup_action, KeyCode, KeybindError, Keybinds,
    SharedKeybindError, UnrecognizedKeybindError,
};

const ACTIONS: [Keybinds; 5] =
    [Keybinds::Forward, Keybinds::Backward, Keybinds::Left, Keybinds::Right, Keybinds::Jump];

fn config_with(kb: KeybindConfig) -> Config {
    Config { keybinds: kb, ..Config::default() }
}

#[test]
fn resolves_every_table_entry() {
    assert_eq!(key_from_str("w"), Ok(KeyCode::W));
    assert_eq!(key_from_str("a"), Ok(KeyCode::A));
    assert_eq!(key_from_str("s"), Ok(KeyCode::S));
    assert_eq!(key_from_str("d"), Ok(KeyCode::D));
    assert_eq!(key_from_str(" "), Ok(KeyCode::Space));
}

#[test]
fn rejects_names_outside_the_table() {
    assert_eq!(key_from_str("k"), Err(UnrecognizedKeybindError("k".to_owned())));
    assert_eq!(key_from_str(""), Err(UnrecognizedKeybindError("".to_owned())));
    assert_eq!(key_from_str("ww"), Err(UnrecognizedKeybindError("ww".to_owned())));
    assert_eq!(key_from_str("W"), Err(UnrecognizedKeybindError("W".to_owned())));
}

#[test]
fn error_message_names_the_key() {
    let e = UnrecognizedKeybindError("k".to_owned());
    assert_eq!(e.message(), "Unrecognized Keybind found: k");
}

#[test]
fn default_config_binds_every_action() {
    let map = build_keybind_map(Config::default()).unwrap();
    assert_eq!(map.len(), 5);
    assert_eq!(map.get_by_left(&Keybinds::Forward), Some(&KeyCode::W));
    assert_eq!(map.get_by_left(&Keybinds::Backward), Some(&KeyCode::S));
    assert_eq!(map.get_by_left(&Keybinds::Left), Some(&KeyCode::A));
    assert_eq!(map.get_by_left(&Keybinds::Right), Some(&KeyCode::D));
    assert_eq!(map.get_by_left(&Keybinds::Jump), Some(&KeyCode::Space));
}

#[test]
fn lookup_round_trips_for_every_action() {
    let map = build_keybind_map(Config::default()).unwrap();
    for a in ACTIONS {
        let k = *map.get_by_left(&a).unwrap();
        assert_eq!(lookup_action(&map, k), Some(a));
    }
}

#[test]
fn swapped_bindings_round_trip() {
    let kb = KeybindConfig {
        forward: "s".to_owned(),
        backward: "w".to_owned(),
        left: "d".to_owned(),
        right: "a".to_owned(),
        jump: " ".to_owned(),
    };
    let map = build_keybind_map(config_with(kb)).unwrap();
    assert_eq!(lookup_action(&map, KeyCode::S), Some(Keybinds::Forward));
    assert_eq!(lookup_action(&map, KeyCode::W), Some(Keybinds::Backward));
    for a in ACTIONS {
        let k = *map.get_by_left(&a).unwrap();
        assert_eq!(lookup_action(&map, k), Some(a));
    }
}

#[test]
fn unrecognized_forward_fails_whole_build() {
    let kb = KeybindConfig { forward: "k".to_owned(), ..KeybindConfig::default() };
    let r = build_keybind_map(config_with(kb));
    assert_eq!(r.err(), Some(KeybindError::Unrecognized(UnrecognizedKeybindError("k".to_owned()))));
}

#[test]
fn first_unrecognized_name_is_reported() {
    let kb = KeybindConfig {
        left: "h".to_owned(),
        jump: "o".to_owned(),
        ..KeybindConfig::default()
    };
    let r = build_keybind_map(config_with(kb));
    assert_eq!(r.err(), Some(KeybindError::Unrecognized(UnrecognizedKeybindError("h".to_owned()))));
}

#[test]
fn shared_key_fails_whole_build() {
    let kb = KeybindConfig { backward: "w".to_owned(), ..KeybindConfig::default() };
    let r = build_keybind_map(config_with(kb));
    assert_eq!(r.err(), Some(KeybindError::SharedKey(SharedKeybindError("w".to_owned()))));
}

#[test]
fn first_shared_name_is_reported() {
    let kb = KeybindConfig {
        right: "a".to_owned(),
        jump: "s".to_owned(),
        ..KeybindConfig::default()
    };
    let r = build_keybind_map(config_with(kb));
    assert_eq!(r.err(), Some(KeybindError::SharedKey(SharedKeybindError("a".to_owned()))));
}

#[test]
fn jump_on_a_movement_key_is_refused() {
    let kb = KeybindConfig { jump: "d".to_owned(), ..KeybindConfig::default() };
    let r = build_keybind_map(config_with(kb));
    assert_eq!(r.err(), Some(KeybindError::SharedKey(SharedKeybindError("d".to_owned()))));
}

#[test]
fn unrecognized_name_is_reported_before_a_shared_one() {
    let kb = KeybindConfig {
        backward: "w".to_owned(),
        jump: "x".to_owned(),
        ..KeybindConfig::default()
    };
    let r = build_keybind_map(config_with(kb));
    assert_eq!(r.err(), Some(KeybindError::Unrecognized(UnrecognizedKeybindError("x".to_owned()))));
}

#[test]
fn shared_key_message_names_the_key() {
    let e = SharedKeybindError("w".to_owned());
    assert_eq!(e.message(), "Keybind bound to more than one action: w");
}
