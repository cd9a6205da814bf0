use close_my_lid::layout::{footer_text_y, PanelHeights, PanelStack, AGENT_GAP, AGENT_ROW, SEPARATOR};

#[test]
fn hiding_the_battery_section_shortens_the_panel_by_it_and_its_rule() {
    let with = PanelHeights::new(7, true);
    let without = PanelHeights::new(7, false);

    assert_eq!(without.battery, 0);
    assert_eq!(with.total - without.total, with.battery + SEPARATOR);
}

#[test]
fn the_total_is_the_sum_of_what_is_drawn() {
    let heights = PanelHeights::new(7, true);
    let sections =
        heights.header + heights.battery + heights.agents + heights.hold + heights.footer;
    assert_eq!(heights.total, sections + 4 * SEPARATOR);
}

fn assert_tiles(stack: &PanelStack) {
    let bands = stack.bands();
    assert!(!bands.is_empty());

    let mut edge = stack.total;
    for band in &bands {
        assert!(band.height > 0, "a zero-height band draws nothing: {band:?}");
        assert_eq!(
            band.top(),
            edge,
            "bands must meet exactly; {band:?} does not start at {edge}"
        );
        edge = band.y;
    }
    assert_eq!(edge, 0, "the stack must reach the bottom of the panel");
}

#[test]
fn every_section_tiles_the_panel_with_a_battery() {
    let stack = PanelStack::new(7, true);
    assert!(stack.battery.is_some());
    assert_eq!(stack.rules.len(), 4);
    assert_tiles(&stack);
}

#[test]
fn every_section_tiles_the_panel_without_one() {
    let stack = PanelStack::new(7, false);
    assert!(stack.battery.is_none());
    assert_eq!(stack.rules.len(), 3, "the battery rule goes with its section");
    assert_tiles(&stack);
}

#[test]
fn the_stack_survives_a_change_in_the_number_of_agents() {
    for rows in [1, 2, 7, 12] {
        for has_battery in [true, false] {
            assert_tiles(&PanelStack::new(rows, has_battery));
        }
    }
}

#[test]
fn sections_run_in_reading_order() {
    let stack = PanelStack::new(7, true);
    let battery = stack.battery.unwrap();
    assert!(stack.header.y > battery.y, "the header sits above the battery");
    assert!(battery.y > stack.agents.y);
    assert!(stack.agents.y > stack.hold.y);
    assert!(stack.hold.y > stack.footer.y);
    assert_eq!(stack.footer.y, 0, "the footer sits on the bottom edge");
}

#[test]
fn a_single_agent_row_adds_no_gap() {
    let one = PanelHeights::new(1, false);
    let two = PanelHeights::new(2, false);
    assert_eq!(two.agents - one.agents, AGENT_ROW + AGENT_GAP);
}

#[test]
fn the_panel_measures_what_the_sections_add_up_to() {
    let heights = PanelHeights::new(7, true);
    assert_eq!(heights.header, 72);
    assert_eq!(heights.battery, 93);
    assert_eq!(heights.agents, 59 + 7 * 28 + 6 * 10);
    assert_eq!(heights.hold, 79);
    assert_eq!(heights.footer, 118);
    assert_eq!(heights.total, 72 + 93 + 315 + 79 + 118 + 4);
    assert_eq!(PanelHeights::new(0, false).agents, 59);
    assert_eq!(footer_text_y(), 8);
}
