use close_my_lid::battery::{
    battery_icon, battery_level_text, card_caption, meter_percent, panel_caption, BatteryIcon,
    BatteryStatus,
};
use close_my_lid::errors::GuiError;
use close_my_lid::login::{
    checkbox_reading, launches_at_login, login_item, set_launch_at_login, MACOS_LOGIN_DETAIL,
};
use close_my_lid::pages::{key_action, shortcut, KeyAction, Page};
use close_my_lid::prefs::GuiPrefs;

#[test]
fn notifications_are_on_until_turned_off() {
    assert!(GuiPrefs::default().notifications);
}

#[test]
fn battery_icons_step_down_with_the_charge() {
    let on = |percentage, is_charging| Some(BatteryStatus { percentage, is_charging });
    assert_eq!(battery_icon(None), BatteryIcon::Plugged);
    assert_eq!(battery_icon(on(10, true)), BatteryIcon::Charging);
    assert_eq!(battery_icon(on(75, false)), BatteryIcon::Full);
    assert_eq!(battery_icon(on(74, false)), BatteryIcon::Medium);
    assert_eq!(battery_icon(on(35, false)), BatteryIcon::Medium);
    assert_eq!(battery_icon(on(15, false)), BatteryIcon::Low);
    assert_eq!(battery_icon(on(14, false)), BatteryIcon::Warning);
}

#[test]
fn battery_captions_put_charging_first() {
    let charging = BatteryStatus { percentage: 3, is_charging: true };
    let draining = BatteryStatus { percentage: 3, is_charging: false };
    let healthy = BatteryStatus { percentage: 80, is_charging: false };
    assert_eq!(panel_caption(charging, true, 5), "charging");
    assert_eq!(panel_caption(draining, true, 5), "stopping to protect battery");
    assert_eq!(panel_caption(healthy, false, 5), "stops at 5%");
    assert_eq!(card_caption(charging, true, 5), "Charging");
    assert_eq!(card_caption(draining, true, 5), "Low — releasing to protect it");
    assert_eq!(card_caption(healthy, false, 5), "Holds end on their own at 5%");
    assert_eq!(battery_level_text(healthy), "80% left");
    assert_eq!(meter_percent(BatteryStatus { percentage: 104, is_charging: false }), 100);
}

#[test]
fn pages_and_shortcuts() {
    assert_eq!(Page::Overview.title(), "Overview");
    assert_eq!(Page::Settings.shortcut(), ",");
    assert_eq!(shortcut(Page::Agents.shortcut(), false), "Ctrl+2");
    assert_eq!(shortcut("Q", true), "⌘Q");
}

#[test]
fn the_panel_claims_escape_and_two_command_keys() {
    assert_eq!(key_action(53, false, None), Some(KeyAction::Dismiss));
    assert_eq!(key_action(12, true, Some("q")), Some(KeyAction::Quit));
    assert_eq!(key_action(43, true, Some(",")), Some(KeyAction::Settings));
    assert_eq!(key_action(12, false, Some("q")), None);
    assert_eq!(key_action(0, true, Some("a")), None);
    assert_eq!(key_action(0, true, None), None);
}

#[test]
fn a_missing_executable_path_reads_as_not_launching_at_login() {
    let missing: Result<String, String> = Err("no executable".to_string());
    assert!(!launches_at_login(&missing, false));
    match set_launch_at_login(&missing, true, false) {
        Err(GuiError::LoginItem { detail }) => assert_eq!(detail, "no executable"),
        other => panic!("unexpected {other:?}"),
    }
}

#[test]
fn macos_leaves_the_login_item_to_the_menu_bar_app() {
    let exe: Result<String, String> = Ok("/Applications/Close My Lid.app".to_string());
    assert!(!launches_at_login(&exe, true));
    for enabled in [true, false] {
        match set_launch_at_login(&exe, enabled, true) {
            Err(GuiError::LoginItem { detail }) => {
                assert_eq!(detail, "Use the menu bar app's settings on macOS.");
                assert_eq!(detail, MACOS_LOGIN_DETAIL);
            }
            other => panic!("unexpected {other:?}"),
        }
    }
}

#[test]
fn the_login_item_starts_this_executable_minimised() {
    let exe: Result<String, String> = Ok("/opt/close-my-lid/close-my-lid-gui".to_string());
    let item = login_item(&exe).expect("the item builds on this platform");
    assert_eq!(item.app_name(), "Close My Lid");
    assert_eq!(item.app_path(), "/opt/close-my-lid/close-my-lid-gui");
    assert_eq!(item.args(), ["--minimized".to_string()].as_slice());
    assert_eq!(item.asked(), None);
}

#[test]
fn the_checkbox_shows_the_lookup_or_no() {
    assert!(checkbox_reading(Ok(true)));
    assert!(!checkbox_reading(Ok(false)));
    assert!(!checkbox_reading(Err(GuiError::LoginItem { detail: "unreadable".to_string() })));
}
