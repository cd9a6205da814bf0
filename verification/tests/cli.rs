use close_my_lid::cli::{
    answer, help, parse, unknown_command_lines, version_line, Command, USAGE_EXIT_CODE, WATCHDOG_ARG,
};

fn parsed(arguments: &[&str]) -> Command {
    parse(
        &arguments
            .iter()
            .map(|argument| argument.to_string())
            .collect::<Vec<_>>(),
    )
}

#[test]
fn no_arguments_launches_the_menu_bar_app() {
    assert_eq!(parsed(&[]), Command::MenuBar);
}

#[test]
fn every_documented_spelling_parses() {
    assert_eq!(parsed(&["enable"]), Command::Enable);
    assert_eq!(parsed(&["disable"]), Command::Disable);
    assert_eq!(parsed(&["status"]), Command::Status);
    for spelling in ["--version", "-v", "version"] {
        assert_eq!(parsed(&[spelling]), Command::Version, "{spelling}");
    }
    for spelling in ["--help", "-h", "help"] {
        assert_eq!(parsed(&[spelling]), Command::Help, "{spelling}");
    }
}

#[test]
fn the_watchdog_flag_matches_what_the_launch_agent_passes() {
    assert_eq!(parsed(&[WATCHDOG_ARG]), Command::Watchdog);
}

#[test]
fn anything_else_is_reported_rather_than_launching_the_app() {
    assert_eq!(
        parsed(&["sleep-now"]),
        Command::Unknown("sleep-now".to_string())
    );
}

#[test]
fn only_the_first_argument_decides() {
    assert_eq!(parsed(&["status", "enable"]), Command::Status);
    assert_eq!(parsed(&["Enable"]), Command::Unknown("Enable".to_string()));
}

#[test]
fn the_help_text_lists_every_command() {
    let help = help("close-my-lid", "0.4.4");
    for command in ["enable", "disable", "status", "--version", "--help"] {
        assert!(help.contains(command), "{command} is undocumented");
    }
    assert!(help.starts_with("Close My Lid 0.4.4\n\nUsage:\n  close-my-lid "));
}

#[test]
fn unknown_arguments_are_named_before_the_usage() {
    assert_eq!(
        unknown_command_lines("sleep-now", "Usage: …"),
        vec!["Unknown command: sleep-now".to_string(), "Usage: …".to_string()]
    );
    assert_eq!(version_line("0.4.4"), "Close My Lid 0.4.4");
    assert_eq!(USAGE_EXIT_CODE, 64);
}

fn core_error(hint: Option<&str>) -> close_my_lid::errors::CoreError {
    close_my_lid::errors::CoreError {
        kind: close_my_lid::errors::CoreErrorKind::Denied,
        message: "pmset refused".to_string(),
        hint: hint.map(|h| h.to_string()),
    }
}

#[test]
fn each_command_answers_on_its_own_stream_with_its_own_code() {
    let usage = help("close-my-lid", "1.2.0");

    let version = answer(Command::Version, "close-my-lid", "1.2.0", false, None);
    assert_eq!(version.out, ["Close My Lid 1.2.0".to_string()]);
    assert!(version.err.is_empty());
    assert_eq!(version.code, 0);

    let shown = answer(Command::Help, "close-my-lid", "1.2.0", false, None);
    assert_eq!(shown.out, [usage.clone()]);
    assert_eq!(shown.code, 0);

    let unknown = answer(Command::Unknown("frobnicate".to_string()), "close-my-lid", "1.2.0", false, None);
    assert!(unknown.out.is_empty());
    assert_eq!(unknown.err, ["Unknown command: frobnicate".to_string(), usage]);
    assert_eq!(unknown.code, 64);

    let quiet = answer(Command::Watchdog, "close-my-lid", "1.2.0", false, Some(core_error(None)));
    assert!(quiet.out.is_empty() && quiet.err.is_empty());
    assert_eq!(quiet.code, 1);
    assert_eq!(answer(Command::Watchdog, "close-my-lid", "1.2.0", false, None).code, 0);

    let refused = answer(Command::Enable, "close-my-lid", "1.2.0", false, Some(core_error(Some("Try sudo."))));
    assert!(refused.out.is_empty());
    assert_eq!(
        refused.err,
        ["close-my-lid: pmset refused".to_string(), "\nhint: Try sudo.".to_string()]
    );
    assert_eq!(refused.code, 1);

    let fine = answer(Command::Status, "close-my-lid", "1.2.0", false, None);
    assert_eq!(fine.out, ["closed-lid sleep hold: disabled".to_string()]);
    assert!(fine.err.is_empty());
    assert_eq!(fine.code, 0);
    let held = answer(Command::Status, "close-my-lid", "1.2.0", true, None);
    assert_eq!(held.out, ["closed-lid sleep hold: enabled".to_string()]);
    let enabled = answer(Command::Enable, "close-my-lid", "1.2.0", false, None);
    assert_eq!(enabled.out, ["Close My Lid is holding closed-lid sleep.".to_string()]);
    assert_eq!(enabled.code, 0);
    let disabled = answer(Command::Disable, "close-my-lid", "1.2.0", true, None);
    assert_eq!(disabled.out, ["Close My Lid restored normal closed-lid sleep.".to_string()]);
    assert!(disabled.err.is_empty());
    assert_eq!(answer(Command::Disable, "close-my-lid", "1.2.0", false, Some(core_error(None))).err, ["close-my-lid: pmset refused".to_string()]);
}
