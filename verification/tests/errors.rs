use close_my_lid::errors::{
    alert_detail, alert_headline, capitalise, settings_message, CliError, CoreError,
    CoreErrorKind, GuiError,
};

fn failure(kind: CoreErrorKind, message: &str, hint: Option<&str>) -> CoreError {
    CoreError {
        kind,
        message: message.to_string(),
        hint: hint.map(str::to_string),
    }
}

fn unsupported() -> CoreError {
    failure(
        CoreErrorKind::UnsupportedPlatform,
        "closed-lid sleep control is not supported on macos",
        Some("Use the menu bar app on macOS."),
    )
}

#[test]
fn core_messages_read_as_sentences_in_the_banner() {
    assert_eq!(capitalise("could not hold"), "Could not hold");
    assert_eq!(capitalise(""), "");
}

#[test]
fn capitalise_handles_letters_that_widen() {
    assert_eq!(capitalise("ß is sharp"), "SS is sharp");
    assert_eq!(capitalise("é"), "É");
}

#[test]
fn headlines_stay_short_enough_for_the_banner() {
    let error = GuiError::NoBackend { source: unsupported() };
    assert!(error.headline().len() < 40, "{}", error.headline());
}

#[test]
fn error_hints_pass_through_from_the_core() {
    let error = CliError::Lid(failure(CoreErrorKind::Denied, "could not hold the lid: refused", Some("Log in locally.")));
    assert_eq!(error.hint(), Some("Log in locally."));

    let expected = unsupported().hint;
    let error = GuiError::NoBackend { source: unsupported() };
    assert!(expected.is_some());
    assert_eq!(error.hint().map(str::to_owned), expected);
}

#[test]
fn an_unsupported_platform_is_distinguishable_from_a_refusal() {
    let unsupported = CliError::Lid(unsupported());
    let denied = CliError::Lid(failure(CoreErrorKind::Denied, "could not hold the lid: no", None));
    assert_ne!(unsupported.exit_code(), denied.exit_code());
}

#[test]
fn core_errors_convert_without_losing_their_message() {
    let error = CliError::Lid(failure(CoreErrorKind::Other, "could not reach the session bus: no socket", None));
    assert!(error.message().contains("no socket"));
}

#[test]
fn exit_codes_follow_sysexits() {
    assert_eq!(CliError::Lid(unsupported()).exit_code(), 69);
    assert_eq!(CliError::Lid(failure(CoreErrorKind::Denied, "x", None)).exit_code(), 77);
    assert_eq!(CliError::Lid(failure(CoreErrorKind::Io, "x", None)).exit_code(), 72);
    assert_eq!(CliError::Lid(failure(CoreErrorKind::Decode, "x", None)).exit_code(), 72);
    assert_eq!(CliError::Lid(failure(CoreErrorKind::Encode, "x", None)).exit_code(), 72);
    assert_eq!(CliError::Lid(failure(CoreErrorKind::Other, "x", None)).exit_code(), 1);
    assert_eq!(CliError::Output("broken pipe".to_string()).exit_code(), 74);
    assert_eq!(CliError::SignalHandler("taken".to_string()).exit_code(), 1);
}

#[test]
fn a_report_lists_causes_then_the_hint() {
    let error = CliError::SignalHandler("a handler is already installed".to_string());
    let lines = error.report(&vec!["a handler is already installed".to_string()]);
    assert_eq!(
        lines,
        vec![
            "close-my-lid: could not listen for Ctrl-C".to_string(),
            "  caused by: a handler is already installed".to_string(),
            "\nhint: Another handler may already be installed. Try running the command directly rather than under a wrapper.".to_string(),
        ]
    );
    let quiet = CliError::Output("broken pipe".to_string()).report(&vec![]);
    assert_eq!(quiet, vec!["close-my-lid: could not write output".to_string()]);
}

#[test]
fn gui_errors_word_themselves_for_the_banner() {
    let feed = GuiError::UpdateFeed { detail: "timed out".to_string() };
    assert_eq!(feed.headline(), "Could not check for updates");
    assert_eq!(feed.hint(), Some("Check your connection and try again."));
    assert_eq!(feed.message(), "could not read the update feed: timed out");

    let login = GuiError::LoginItem { detail: "no home".to_string() };
    assert_eq!(login.hint(), Some("no home"));
    assert_eq!(login.message(), "could not change launch at login: no home");

    let lid = GuiError::Lid(failure(CoreErrorKind::Denied, "could not hold the lid", None));
    assert_eq!(lid.headline(), "Could not hold the lid");
    assert_eq!(lid.hint(), None);
    assert_eq!(
        GuiError::NoBackend { source: unsupported() }.message(),
        "Close My Lid cannot control this system's lid behaviour"
    );
}

#[test]
fn alerts_split_the_cause_from_the_hint() {
    let denied = failure(CoreErrorKind::Denied, "pmset refused", Some("Grant once in Settings."));
    assert_eq!(alert_headline(&denied), "Close My Lid could not update sleep settings.");
    assert_eq!(alert_detail(&denied), "pmset refused\n\nGrant once in Settings.");

    let cancelled = failure(CoreErrorKind::ElevationCancelled, "cancelled", Some("Try again."));
    assert_eq!(alert_headline(&cancelled), "Administrator approval cancelled");
    assert_eq!(alert_detail(&cancelled), "Try again.");

    let bare = failure(CoreErrorKind::Io, "disk full", None);
    assert_eq!(alert_detail(&bare), "disk full");
    assert_eq!(settings_message(&bare), "disk full");
    assert_eq!(settings_message(&cancelled), "Administrator approval cancelled.");
}
