use dns::invocation::{default_config_path, resolve_config_path, Command, Invocation};
use dns::level::{resolve_level, Level};

#[test]
fn default_level_is_info() {
    assert_eq!(resolve_level(None, 0, 0), Level::Info);
}

#[test]
fn explicit_level_wins() {
    assert_eq!(resolve_level(Some(Level::Error), 0, 0), Level::Error);
    assert_eq!(resolve_level(Some(Level::Trace), 0, 3), Level::Trace);
    assert_eq!(resolve_level(Some(Level::Off), 4, 0), Level::Off);
}

#[test]
fn verbose_flags_raise_the_level() {
    assert_eq!(resolve_level(None, 1, 0), Level::Debug);
    assert_eq!(resolve_level(None, 2, 0), Level::Trace);
}

#[test]
fn verbose_flags_clamp_at_trace() {
    assert_eq!(resolve_level(None, 3, 0), Level::Trace);
    assert_eq!(resolve_level(None, 255, 0), Level::Trace);
}

#[test]
fn quiet_flags_lower_the_level() {
    assert_eq!(resolve_level(None, 0, 1), Level::Warn);
    assert_eq!(resolve_level(None, 0, 2), Level::Error);
    assert_eq!(resolve_level(None, 0, 3), Level::Off);
}

#[test]
fn quiet_flags_clamp_at_off() {
    assert_eq!(resolve_level(None, 0, 4), Level::Off);
    assert_eq!(resolve_level(None, 0, 255), Level::Off);
}

#[test]
fn config_path_defaults_to_config_toml() {
    assert_eq!(default_config_path(), "config.toml");
    assert_eq!(resolve_config_path(None), "config.toml");
}

#[test]
fn explicit_config_path_wins() {
    assert_eq!(
        resolve_config_path(Some(String::from("srv.toml"))),
        "srv.toml"
    );
}

#[test]
fn invocation_combines_the_resolutions() {
    let inv = Invocation::new(Command::Start, None, 0, 0, None);
    assert_eq!(inv.command, Command::Start);
    assert_eq!(inv.level, Level::Info);
    assert_eq!(inv.config_path, "config.toml");

    let inv = Invocation::new(
        Command::Start,
        Some(Level::Debug),
        0,
        0,
        Some(String::from("other.toml")),
    );
    assert_eq!(inv.level, Level::Debug);
    assert_eq!(inv.config_path, "other.toml");

    let inv = Invocation::new(Command::Start, None, 0, 1, None);
    assert_eq!(inv.level, Level::Warn);
}
