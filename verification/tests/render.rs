use close_my_lid::render::{
    agents, asked_owner_to_stop, hold_expired, hold_released, hold_started, sleep_restored,
    status,
};

#[test]
fn the_fixed_lines_read_as_written() {
    assert_eq!(asked_owner_to_stop(4242), "Asking the holding process (pid 4242) to stop…");
    assert_eq!(asked_owner_to_stop(0), "Asking the holding process (pid 0) to stop…");
    assert_eq!(hold_expired(), "\nSession ended; normal sleep restored.");
    assert_eq!(hold_released(), "\nReleased. Normal sleep restored.");
    assert_eq!(sleep_restored(), "Close My Lid restored normal sleep behaviour.");
}

#[test]
fn a_started_hold_names_its_length_and_mechanism() {
    assert_eq!(
        hold_started("1 hour", "systemd-logind inhibitor"),
        vec![
            "Close My Lid is holding the lid open (1 hour).".to_string(),
            "Mechanism: systemd-logind inhibitor.".to_string(),
            "Press Ctrl-C to release.".to_string(),
        ]
    );
}

#[test]
fn a_stale_record_is_called_out_rather_than_reported_as_held() {
    let lines = status(true, false, None, "On — 45m left", "logind");
    assert_eq!(lines[0], "Off — sleeps normally");
    assert_eq!(lines.len(), 4);
    assert_eq!(lines[3], "mechanism: logind");

    let held = status(true, true, Some(77), "On — 45m left", "logind");
    assert_eq!(
        held,
        vec![
            "On — 45m left".to_string(),
            "held by: pid 77".to_string(),
            "mechanism: logind".to_string(),
        ]
    );
}

#[test]
fn agent_names_line_up_in_a_column() {
    let rows = vec![
        ("GitHub Copilot".to_string(), 2),
        ("Pi".to_string(), 0),
        ("Cursor".to_string(), 1),
    ];
    assert_eq!(
        agents(&rows),
        vec![
            "GitHub Copilot  2 sessions".to_string(),
            "Pi              idle".to_string(),
            "Cursor          1 session".to_string(),
        ]
    );
    let idle = vec![("OpenCode".to_string(), 0), ("Pi".to_string(), 0)];
    assert_eq!(agents(&idle), vec!["No agent sessions detected.".to_string()]);
}
