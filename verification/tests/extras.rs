use close_my_lid::battery::rgb_components;
use close_my_lid::controller::should_install_watchdog;
use close_my_lid::errors::{banner_choice, GuiError};
use close_my_lid::login::{login_item_action, login_item_step, LoginItemStep, ServiceStatus};
use close_my_lid::pages::{grant_button, grant_status};
use close_my_lid::render::{status_report, systemd_unit};
use close_my_lid::supervision::{readout_due, trigger_delay};
use close_my_lid::updates::{
    footer_update_row, sidebar_update_label, update_row_detail, UpdateInfo, UpdateStatus,
};

#[test]
fn the_json_status_reports_reality_and_the_record() {
    let report = status_report(true, false, Some(12), "On", Some(1_000), Some(2_700_900), "logind");
    assert!(!report.active);
    assert!(report.recorded_active);
    assert!(report.stale);
    assert_eq!(report.owner_pid, Some(12));
    assert_eq!(report.summary, "On");
    assert_eq!(report.ends_at, Some(1_000));
    assert_eq!(report.remaining_seconds, Some(2_700));
    assert_eq!(report.backend, "logind");
    assert!(!status_report(false, false, None, "Off", None, None, "logind").stale);
}

#[test]
fn the_systemd_unit_runs_an_unlimited_hold() {
    let unit = systemd_unit();
    assert!(unit.contains("ExecStart=%h/.local/bin/close-my-lid enable --for unlimited"));
    assert!(unit.contains("Restart=no"));
    assert!(unit.ends_with("WantedBy=default.target\n"));
}

#[test]
fn update_rows_name_the_version() {
    let update = UpdateInfo { version: "0.6.0".to_string(), url: String::new() };
    assert_eq!(
        footer_update_row(Some(&update)),
        ("Update Available".to_string(), "0.6.0 →".to_string())
    );
    assert_eq!(
        footer_update_row(None),
        ("Check for Updates…".to_string(), String::new())
    );
    assert_eq!(sidebar_update_label(&update), "Update to 0.6.0");
    assert_eq!(update_row_detail(&UpdateStatus::Checking), "Checking…");
    assert_eq!(update_row_detail(&UpdateStatus::Current), "You're up to date.");
    assert_eq!(
        update_row_detail(&UpdateStatus::Unchecked),
        "Checked automatically every few hours."
    );
    assert_eq!(update_row_detail(&UpdateStatus::Available(update)), "Version 0.6.0 is available.");
}

#[test]
fn past_messages_are_not_scheduled() {
    assert_eq!(trigger_delay(5_000, 2_000), Some(3_000));
    assert_eq!(trigger_delay(2_000, 2_000), None);
    assert_eq!(trigger_delay(1_000, 2_000), None);
}

#[test]
fn readouts_refresh_faster_with_focus() {
    assert!(readout_due(None, false));
    assert!(readout_due(Some(5_000), true));
    assert!(!readout_due(Some(4_999), true));
    assert!(!readout_due(Some(29_999), false));
    assert!(readout_due(Some(30_000), false));
}

#[test]
fn the_grant_and_watchdog_follow_each_other() {
    assert_eq!(grant_button(true), "Remove…");
    assert_eq!(grant_button(false), "Grant Once…");
    assert!(grant_status(true).starts_with("Granted."));
    assert!(grant_status(false).starts_with("Not granted yet."));
    assert!(should_install_watchdog(true, false));
    assert!(!should_install_watchdog(true, true));
    assert!(!should_install_watchdog(false, false));
}

#[test]
fn login_items_are_only_changed_when_they_differ() {
    assert_eq!(login_item_step(true, ServiceStatus::Enabled), LoginItemStep::Nothing);
    assert_eq!(login_item_step(false, ServiceStatus::NotRegistered), LoginItemStep::Nothing);
    assert_eq!(login_item_step(true, ServiceStatus::RequiresApproval), LoginItemStep::Register);
    assert_eq!(login_item_step(false, ServiceStatus::Enabled), LoginItemStep::Unregister);
    assert_eq!(login_item_action(true), "add Close My Lid to your login items");
    assert_eq!(login_item_action(false), "remove Close My Lid from your login items");
}

#[test]
fn a_startup_failure_outranks_the_last_refusal() {
    let startup = GuiError::Window { detail: "no display".to_string() };
    let last = GuiError::Settings { detail: "read-only".to_string() };
    let (shown, dismissable) = banner_choice(Some(&startup), Some(&last)).unwrap();
    assert!(matches!(shown, GuiError::Window { .. }));
    assert!(!dismissable);
    let (shown, dismissable) = banner_choice(None, Some(&last)).unwrap();
    assert!(matches!(shown, GuiError::Settings { .. }));
    assert!(dismissable);
    assert!(banner_choice(None, None).is_none());
}

#[test]
fn packed_colours_split_into_components() {
    assert_eq!(rgb_components(0xD9_77_57), (0xD9, 0x77, 0x57));
    assert_eq!(rgb_components(0xFF_00_0000), (0, 0, 0));
}
