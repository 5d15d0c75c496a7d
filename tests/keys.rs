use user_config::{
    check_reserved_keys, config_text_is_blank, has_overrides, key_for_name, parse_key,
    ConfigError, Key, UserConfig, UserConfigString, ACTION_COUNT,
};

#[test]
fn test_parse_key() {
    assert_eq!(parse_key(String::from("j")).unwrap(), Key::Char('j'));
    assert_eq!(parse_key(String::from("J")).unwrap(), Key::Char('J'));
    assert_eq!(parse_key(String::from("ctrl-j")).unwrap(), Key::Ctrl('j'));
    assert_eq!(parse_key(String::from("ctrl-J")).unwrap(), Key::Ctrl('J'));
    assert_eq!(parse_key(String::from("-")).unwrap(), Key::Char('-'));
    assert_eq!(parse_key(String::from("esc")).unwrap(), Key::Esc);
    assert_eq!(parse_key(String::from("del")).unwrap(), Key::Delete);
}

#[test]
fn test_reserved_key() {
    assert!(
        check_reserved_keys(&Key::Char('\n')).is_err(),
        "Enter key should be reserved"
    );
}

#[test]
fn single_characters_are_plain_keys() {
    for c in ['a', 'Z', '-', ' ', '?', '/', '\n', 'é', '越'] {
        assert_eq!(parse_key(c.to_string()), Ok(Key::Char(c)));
    }
}

#[test]
fn modifier_keeps_case_of_its_character() {
    assert_eq!(parse_key(String::from("ctrl-j")), Ok(Key::Ctrl('j')));
    assert_eq!(parse_key(String::from("ctrl-J")), Ok(Key::Ctrl('J')));
    assert_eq!(parse_key(String::from("alt-x")), Ok(Key::Alt('x')));
    assert_eq!(parse_key(String::from("alt-xyz")), Ok(Key::Alt('x')));
}

#[test]
fn key_names_ignore_case() {
    assert_eq!(parse_key(String::from("CTRL-a")), Ok(Key::Ctrl('a')));
    assert_eq!(parse_key(String::from("ESC")), Ok(Key::Esc));
    assert_eq!(parse_key(String::from("Escape")), Ok(Key::Esc));
    assert_eq!(parse_key(String::from("PageUp")), Ok(Key::PageUp));
}

#[test]
fn named_keys() {
    assert_eq!(parse_key(String::from("esc")), Ok(Key::Esc));
    assert_eq!(parse_key(String::from("del")), Ok(Key::Delete));
    assert_eq!(parse_key(String::from("delete")), Ok(Key::Backspace));
    assert_eq!(parse_key(String::from("backspace")), Ok(Key::Backspace));
    assert_eq!(parse_key(String::from("left")), Ok(Key::Left));
    assert_eq!(parse_key(String::from("right")), Ok(Key::Right));
    assert_eq!(parse_key(String::from("up")), Ok(Key::Up));
    assert_eq!(parse_key(String::from("down")), Ok(Key::Down));
    assert_eq!(parse_key(String::from("pageup")), Ok(Key::PageUp));
    assert_eq!(parse_key(String::from("pagedown")), Ok(Key::PageDown));
    assert_eq!(parse_key(String::from("space")), Ok(Key::Char(' ')));
    assert_eq!(parse_key(String::from("left-anything")), Ok(Key::Left));
}

#[test]
fn too_many_sections_reports_count() {
    assert_eq!(
        parse_key(String::from("a-b-c")),
        Err(ConfigError::TooManySections {
            input: String::from("a-b-c"),
            count: 3
        })
    );
    assert_eq!(
        parse_key(String::from("--")),
        Err(ConfigError::TooManySections {
            input: String::from("--"),
            count: 3
        })
    );
}

#[test]
fn unknown_key_is_named() {
    assert_eq!(
        parse_key(String::from("bogus")),
        Err(ConfigError::UnknownKey {
            name: String::from("bogus")
        })
    );
    assert_eq!(
        parse_key(String::from("Bogus-x")),
        Err(ConfigError::UnknownKey {
            name: String::from("Bogus")
        })
    );
    assert_eq!(
        parse_key(String::new()),
        Err(ConfigError::UnknownKey {
            name: String::new()
        })
    );
}

#[test]
fn modifier_without_character_fails() {
    assert_eq!(
        parse_key(String::from("ctrl-")),
        Err(ConfigError::EmptyModifierTarget {
            modifier: String::from("ctrl")
        })
    );
    assert_eq!(
        parse_key(String::from("Alt")),
        Err(ConfigError::EmptyModifierTarget {
            modifier: String::from("Alt")
        })
    );
}

#[test]
fn key_for_name_uses_lowered_name() {
    assert_eq!(key_for_name("ctrl", "CTRL", Some('J')), Ok(Key::Ctrl('J')));
    assert_eq!(
        key_for_name("CTRL", "CTRL", Some('J')),
        Err(ConfigError::UnknownKey {
            name: String::from("CTRL")
        })
    );
    assert_eq!(key_for_name("esc", "Esc", None), Ok(Key::Esc));
}

#[test]
fn reserved_keys() {
    for k in [
        Key::Char('h'),
        Key::Char('j'),
        Key::Char('k'),
        Key::Char('l'),
        Key::Up,
        Key::Down,
        Key::Left,
        Key::Right,
        Key::Backspace,
        Key::Char('\n'),
    ] {
        assert_eq!(check_reserved_keys(&k), Err(ConfigError::ReservedKey { key: k }));
    }
    assert_eq!(check_reserved_keys(&Key::Ctrl('j')), Ok(()));
    assert_eq!(check_reserved_keys(&Key::Char('J')), Ok(()));
    assert_eq!(check_reserved_keys(&Key::Delete), Ok(()));
}

fn defaults() -> UserConfig {
    UserConfig {
        back: Key::Char('q'),
        jump_to_album: Key::Char('a'),
        jump_to_artist_album: Key::Char('A'),
        manage_devices: Key::Char('d'),
        decrease_volume: Key::Char('-'),
        increase_volume: Key::Char('+'),
        toggle_playback: Key::Char(' '),
        seek_backwards: Key::Char('<'),
        seek_forwards: Key::Char('>'),
        next_track: Key::Char('n'),
        previous_track: Key::Char('p'),
        help: Key::Char('?'),
        shuffle: Key::Char('s'),
        repeat: Key::Char('r'),
        search: Key::Char('/'),
    }
}

#[test]
fn absent_file_keeps_defaults() {
    let config = UserConfig::new();
    assert!(!has_overrides(&None));
    assert_eq!(config, defaults());
}

#[test]
fn blank_file_keeps_defaults() {
    let config = UserConfig::new();
    assert!(!has_overrides(&Some(String::new())));
    assert!(!has_overrides(&Some(String::from(" \n\t \u{A0}"))));
    assert!(has_overrides(&Some(String::from("help: ctrl-h"))));
    assert_eq!(config, defaults());
}

#[test]
fn blank_text() {
    assert!(config_text_is_blank(""));
    assert!(config_text_is_blank("  \r\n\t"));
    assert!(!config_text_is_blank("  x  "));
}

#[test]
fn overriding_help_changes_only_help() {
    let mut config = UserConfig::new();
    let overrides = UserConfigString {
        help: Some(String::from("ctrl-h")),
        ..UserConfigString::default()
    };
    assert_eq!(config.apply_overrides(&overrides), Ok(()));
    let mut expected = defaults();
    expected.help = Key::Ctrl('h');
    assert_eq!(config, expected);
}

#[test]
fn no_overrides_keep_bindings() {
    let mut config = UserConfig::new();
    assert_eq!(config.apply_overrides(&UserConfigString::default()), Ok(()));
    assert_eq!(config, defaults());
}

#[test]
fn reserved_override_fails() {
    let mut config = UserConfig::new();
    let overrides = UserConfigString {
        next_track: Some(String::from("j")),
        ..UserConfigString::default()
    };
    assert_eq!(
        config.apply_overrides(&overrides),
        Err(ConfigError::ReservedKey {
            key: Key::Char('j')
        })
    );
    assert_eq!(config.next_track, Key::Char('n'));
}

#[test]
fn failure_keeps_earlier_overrides_only() {
    let mut config = UserConfig::new();
    let overrides = UserConfigString {
        back: Some(String::from("x")),
        seek_forwards: Some(String::from("nope")),
        search: Some(String::from("ctrl-f")),
        ..UserConfigString::default()
    };
    assert_eq!(
        config.apply_overrides(&overrides),
        Err(ConfigError::UnknownKey {
            name: String::from("nope")
        })
    );
    let mut expected = defaults();
    expected.back = Key::Char('x');
    assert_eq!(config, expected);
}

#[test]
fn every_action_can_be_overridden() {
    let mut config = UserConfig::new();
    let all = UserConfigString {
        back: Some(String::from("1")),
        jump_to_album: Some(String::from("2")),
        jump_to_artist_album: Some(String::from("3")),
        manage_devices: Some(String::from("4")),
        decrease_volume: Some(String::from("5")),
        increase_volume: Some(String::from("6")),
        toggle_playback: Some(String::from("7")),
        seek_backwards: Some(String::from("8")),
        seek_forwards: Some(String::from("9")),
        next_track: Some(String::from("alt-n")),
        previous_track: Some(String::from("alt-p")),
        help: Some(String::from("ctrl-h")),
        shuffle: Some(String::from("pageup")),
        repeat: Some(String::from("pagedown")),
        search: Some(String::from("esc")),
    };
    assert_eq!(config.apply_overrides(&all), Ok(()));
    let keys: Vec<Key> = (0..ACTION_COUNT).map(|i| config.binding(i)).collect();
    assert_eq!(
        keys,
        vec![
            Key::Char('1'),
            Key::Char('2'),
            Key::Char('3'),
            Key::Char('4'),
            Key::Char('5'),
            Key::Char('6'),
            Key::Char('7'),
            Key::Char('8'),
            Key::Char('9'),
            Key::Alt('n'),
            Key::Alt('p'),
            Key::Ctrl('h'),
            Key::PageUp,
            Key::PageDown,
            Key::Esc,
        ]
    );
}

#[test]
fn set_binding_changes_one_action() {
    let mut config = UserConfig::new();
    config.set_binding(11, Key::Ctrl('h'));
    let mut expected = defaults();
    expected.help = Key::Ctrl('h');
    assert_eq!(config, expected);
    assert_eq!(config.binding(11), Key::Ctrl('h'));
    assert_eq!(config.binding(0), Key::Char('q'));
}
