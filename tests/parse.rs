use luna::intent::{
    normalize_input, parse_intent, parse_lowered, try_parse_open, try_parse_volume, Action,
    ParseError,
};

#[test]
fn test_parse_open_app() {
    let action = parse_intent("open safari").unwrap();
    assert_eq!(action, Action::OpenApp { name: "Safari".to_string() });
}

#[test]
fn test_parse_open_app_with_spaces() {
    let action = parse_intent("open visual studio code").unwrap();
    assert_eq!(action, Action::OpenApp { name: "Visual Studio Code".to_string() });
}

#[test]
fn test_parse_open_url_https() {
    let action = parse_intent("open https://google.com").unwrap();
    assert_eq!(action, Action::OpenUrl { url: "https://google.com".to_string() });
}

#[test]
fn test_parse_open_url_http() {
    let action = parse_intent("open http://example.com").unwrap();
    assert_eq!(action, Action::OpenUrl { url: "http://example.com".to_string() });
}

#[test]
fn test_parse_set_volume() {
    let action = parse_intent("set volume to 40").unwrap();
    assert_eq!(action, Action::SetVolume { level: 40 });
}

#[test]
fn test_parse_volume_shorthand() {
    let action = parse_intent("volume 50").unwrap();
    assert_eq!(action, Action::SetVolume { level: 50 });
}

#[test]
fn test_parse_mute() {
    let action = parse_intent("mute").unwrap();
    assert_eq!(action, Action::Mute);
}

#[test]
fn test_parse_unmute() {
    let action = parse_intent("unmute").unwrap();
    assert_eq!(action, Action::Unmute);
}

#[test]
fn test_parse_with_extra_whitespace() {
    let action = parse_intent("  open   safari  ").unwrap();
    assert_eq!(action, Action::OpenApp { name: "Safari".to_string() });
}

#[test]
fn test_parse_case_insensitive() {
    let action = parse_intent("OPEN SAFARI").unwrap();
    assert_eq!(action, Action::OpenApp { name: "Safari".to_string() });
}

#[test]
fn test_parse_invalid_volume() {
    let result = parse_intent("set volume to abc");
    assert!(result.is_err());
}

#[test]
fn test_parse_volume_out_of_range() {
    let result = parse_intent("set volume to 150");
    assert!(result.is_err());
}

#[test]
fn test_parse_unrecognized() {
    let result = parse_intent("do something random");
    assert!(result.is_err());
}

#[test]
fn test_normalize_input() {
    assert_eq!(normalize_input("  HELLO   WORLD  "), "hello world");
}

#[test]
fn volume_150_is_invalid_volume() {
    assert_eq!(
        parse_intent("volume 150"),
        Err(ParseError::InvalidVolume("150 (exceeds 100)".to_string()))
    );
}

#[test]
fn volume_beyond_a_byte_keeps_the_text() {
    assert_eq!(
        parse_intent("volume 300"),
        Err(ParseError::InvalidVolume("300".to_string()))
    );
}

#[test]
fn volume_not_a_number_keeps_the_text() {
    assert_eq!(
        parse_intent("set volume to abc"),
        Err(ParseError::InvalidVolume("abc".to_string()))
    );
}

#[test]
fn volume_bounds_and_sign() {
    assert_eq!(parse_intent("volume 0"), Ok(Action::SetVolume { level: 0 }));
    assert_eq!(parse_intent("volume 100"), Ok(Action::SetVolume { level: 100 }));
    assert_eq!(parse_intent("volume +40"), Ok(Action::SetVolume { level: 40 }));
    assert_eq!(parse_intent("volume to 7"), Ok(Action::SetVolume { level: 7 }));
    assert_eq!(parse_intent("set volume 9"), Ok(Action::SetVolume { level: 9 }));
    assert_eq!(
        parse_intent("volume -1"),
        Err(ParseError::InvalidVolume("-1".to_string()))
    );
}

#[test]
fn set_volume_without_to_word_reads_to_as_level() {
    assert_eq!(
        parse_intent("set volume to"),
        Err(ParseError::InvalidVolume("to".to_string()))
    );
}

#[test]
fn unrecognized_keeps_input_text() {
    assert_eq!(
        parse_intent("  Do Something   RANDOM "),
        Err(ParseError::UnrecognizedCommand("  Do Something   RANDOM ".to_string()))
    );
    assert_eq!(
        parse_intent(""),
        Err(ParseError::UnrecognizedCommand("".to_string()))
    );
    assert_eq!(
        parse_intent("open"),
        Err(ParseError::UnrecognizedCommand("open".to_string()))
    );
}

#[test]
fn mute_with_whitespace_and_case() {
    assert_eq!(parse_intent("  MUTE\t"), Ok(Action::Mute));
    assert_eq!(parse_intent("UnMute"), Ok(Action::Unmute));
}

#[test]
fn open_target_with_dot_is_url() {
    assert_eq!(
        parse_intent("open Example.COM"),
        Ok(Action::OpenUrl { url: "example.com".to_string() })
    );
    assert_eq!(
        parse_intent("open ftp://host"),
        Ok(Action::OpenUrl { url: "ftp://host".to_string() })
    );
    assert_eq!(
        parse_intent("open my app.v2 beta"),
        Ok(Action::OpenApp { name: "My App.v2 Beta".to_string() })
    );
}

#[test]
fn missing_targets_and_levels() {
    assert_eq!(try_parse_open("open "), Some(Err(ParseError::MissingOpenTarget)));
    assert_eq!(try_parse_volume("volume "), Some(Err(ParseError::MissingVolumeLevel)));
    assert_eq!(try_parse_open("close safari"), None);
    assert_eq!(try_parse_volume("loudness 5"), None);
}

#[test]
fn parse_lowered_uses_the_given_lower_case() {
    assert_eq!(
        parse_lowered("OPEN SAFARI", "open safari"),
        Ok(Action::OpenApp { name: "Safari".to_string() })
    );
    assert_eq!(
        parse_lowered("x", "mute"),
        Ok(Action::Mute)
    );
}

#[test]
fn tabs_and_newlines_separate_words() {
    assert_eq!(normalize_input("\tOpen\n\nNotes\u{3000}"), "open notes");
}
