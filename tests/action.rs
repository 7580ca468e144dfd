use luna::intent::{Action, ParseError};

#[test]
fn test_action_display() {
    assert_eq!(
        Action::OpenApp { name: "Safari".to_string() }.to_string(),
        "OpenApp(name=\"Safari\")"
    );
    assert_eq!(
        Action::OpenUrl { url: "https://google.com".to_string() }.to_string(),
        "OpenUrl(url=\"https://google.com\")"
    );
    assert_eq!(
        Action::SetVolume { level: 40 }.to_string(),
        "SetVolume(level=40)"
    );
    assert_eq!(Action::Mute.to_string(), "Mute");
    assert_eq!(Action::Unmute.to_string(), "Unmute");
}

#[test]
fn parse_error_messages() {
    assert_eq!(
        ParseError::UnrecognizedCommand("fly".to_string()).to_string(),
        "Could not understand command: \"fly\""
    );
    assert_eq!(
        ParseError::InvalidVolume("abc".to_string()).to_string(),
        "Invalid volume level: abc. Must be 0-100."
    );
    assert_eq!(
        ParseError::MissingOpenTarget.to_string(),
        "Missing target for 'open' command. Try: 'open safari' or 'open https://example.com'"
    );
    assert_eq!(
        ParseError::MissingVolumeLevel.to_string(),
        "Missing volume level. Try: 'set volume to 50'"
    );
}
