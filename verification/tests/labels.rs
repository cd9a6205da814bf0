use close_my_lid::labels::{
    agents_headline, duration_caption, hold_button, hold_tag, mechanism_text, NO_BATTERY_CAPTION,
    NO_BATTERY_FIGURE, toggle_label,
};

#[test]
fn the_hero_words_follow_the_hold() {
    assert_eq!(hold_tag(true), "Holding");
    assert_eq!(hold_tag(false), "Not holding");
    assert_eq!(hold_button(true), "Stop Holding");
    assert_eq!(hold_button(false), "Start Holding");
    assert_eq!(duration_caption(true), "Duration — picking another restarts the hold");
    assert_eq!(duration_caption(false), "Duration");
}

#[test]
fn the_cards_fall_back_to_plain_words() {
    assert_eq!(mechanism_text(Some("power scheme")), "power scheme");
    assert_eq!(mechanism_text(None), "No lid control is available on this system.");
    assert_eq!(agents_headline(0), ("All idle".to_string(), None));
    assert_eq!(agents_headline(3), ("3".to_string(), Some(" working")));
    assert_eq!(NO_BATTERY_FIGURE, "Plugged in");
    assert!(NO_BATTERY_CAPTION.starts_with("No battery found"));
}

#[test]
fn the_tray_toggle_reads_on_or_off() {
    assert_eq!(toggle_label(true), "On");
    assert_eq!(toggle_label(false), "Off");
}
