use homeassistant::error::ToolError;
use homeassistant::text::{decimal_string, same_text, strip_trailing_slashes, trim_white_space};

#[test]
fn decimal_rendering() {
    assert_eq!(decimal_string(0), "0");
    assert_eq!(decimal_string(7), "7");
    assert_eq!(decimal_string(100), "100");
    assert_eq!(decimal_string(u32::MAX), "4294967295");
}

#[test]
fn trims_unicode_white_space_like_str_trim() {
    for s in ["", "   ", "\t x y \n", "\u{3000}\u{a0}abc\u{2028}", "a", " \u{200b}a "] {
        assert_eq!(trim_white_space(s), s.trim(), "{s:?}");
    }
}

#[test]
fn strips_only_trailing_slashes() {
    assert_eq!(strip_trailing_slashes("/a/b//"), "/a/b");
    assert_eq!(strip_trailing_slashes("//a"), "//a");
    assert_eq!(strip_trailing_slashes("/"), "");
}

#[test]
fn compares_text() {
    assert!(same_text("entity_id", "entity_id"));
    assert!(!same_text("entity_id", "entity_ids"));
    assert!(!same_text("a", "b"));
    assert!(same_text("", ""));
}

#[test]
fn error_messages() {
    assert_eq!(
        ToolError::NotADirectory { path: "/x".to_string() }.message(),
        "config path '/x' is not a directory"
    );
    assert_eq!(
        ToolError::TarballNotFound { path: "/b.tgz".to_string() }.message(),
        "backup tarball '/b.tgz' not found"
    );
    let spawn = ToolError::SpawnFailed { cause: "permission denied".to_string() };
    assert_eq!(spawn.message(), "failed to spawn command");
    assert_eq!(spawn.cause(), Some("permission denied".to_string()));
    assert_eq!(ToolError::MissingVmid.cause(), None);
    assert_eq!(
        ToolError::ClockUnavailable.message(),
        "system clock is outside the representable range"
    );
    assert_eq!(
        ToolError::command_failed("signal: 9 (SIGKILL)", "  oom\n").message(),
        "command failed (signal: 9 (SIGKILL)): oom"
    );
    assert_eq!(
        ToolError::EndpointDisabled { name: "n".to_string() }.message(),
        "home assistant endpoint 'n' is disabled"
    );
}
