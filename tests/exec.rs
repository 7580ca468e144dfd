use luna::exec::{exec_result, get_command_string, invocation};
use luna::intent::Action;

#[test]
fn test_get_command_string_open_app() {
    let action = Action::OpenApp { name: "Safari".to_string() };
    assert_eq!(get_command_string(&action), "open -a \"Safari\"");
}

#[test]
fn test_get_command_string_open_url() {
    let action = Action::OpenUrl { url: "https://google.com".to_string() };
    assert_eq!(get_command_string(&action), "open \"https://google.com\"");
}

#[test]
fn test_get_command_string_set_volume() {
    let action = Action::SetVolume { level: 40 };
    assert_eq!(
        get_command_string(&action),
        "osascript -e 'set volume output volume 40'"
    );
}

#[test]
fn test_get_command_string_mute() {
    assert_eq!(
        get_command_string(&Action::Mute),
        "osascript -e 'set volume with output muted'"
    );
}

#[test]
fn test_get_command_string_unmute() {
    assert_eq!(
        get_command_string(&Action::Unmute),
        "osascript -e 'set volume without output muted'"
    );
}

#[test]
fn command_string_volume_digits() {
    assert_eq!(
        get_command_string(&Action::SetVolume { level: 0 }),
        "osascript -e 'set volume output volume 0'"
    );
    assert_eq!(
        get_command_string(&Action::SetVolume { level: 100 }),
        "osascript -e 'set volume output volume 100'"
    );
}

#[test]
fn invocation_of_each_action() {
    let (p, a) = invocation(&Action::OpenApp { name: "Safari".to_string() });
    assert_eq!(p, "open");
    assert_eq!(a, vec!["-a".to_string(), "Safari".to_string()]);
    let (p, a) = invocation(&Action::OpenUrl { url: "https://x.org".to_string() });
    assert_eq!(p, "open");
    assert_eq!(a, vec!["https://x.org".to_string()]);
    let (p, a) = invocation(&Action::SetVolume { level: 7 });
    assert_eq!(p, "osascript");
    assert_eq!(a, vec!["-e".to_string(), "set volume output volume 7".to_string()]);
    let (p, a) = invocation(&Action::Mute);
    assert_eq!(p, "osascript");
    assert_eq!(a, vec!["-e".to_string(), "set volume with output muted".to_string()]);
}

#[test]
fn exec_result_keeps_stderr_only_on_failure() {
    let ok = exec_result(&Action::Mute, true, "noise".to_string());
    assert!(ok.success);
    assert_eq!(ok.output, None);
    assert_eq!(ok.command, "osascript -e 'set volume with output muted'");
    let bad = exec_result(&Action::Unmute, false, "boom".to_string());
    assert!(!bad.success);
    assert_eq!(bad.output, Some("boom".to_string()));
}
