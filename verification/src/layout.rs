//! The menu bar panel's metrics and how its sections stack.
//!
//! The panel is a fixed width, so every position in it is arithmetic over
//! these numbers. Every metric is a whole number of points, so the arithmetic
//! here is exact integer arithmetic; a caller drawing with floating point
//! converts each result once.

use vstd::prelude::*;

verus! {

// Text line boxes, sized for the fonts each row uses.
pub const TITLE_LINE: u128 = 22;
pub const STATUS_LINE: u128 = 16;
pub const SECTION_LINE: u128 = 19;
pub const BODY_LINE: u128 = 18;

pub const BAR_HEIGHT: u128 = 8;
pub const BADGE: u128 = 28;
pub const AGENT_ROW: u128 = 28;
pub const AGENT_GAP: u128 = 10;

pub const PILL_HEIGHT: u128 = 26;

pub const FOOTER_ROW: u128 = 34;
pub const FOOTER_GAP: u128 = 2;

pub const SEPARATOR: u128 = 1;

/// Where a footer row's text sits, so the title and the shortcut share one
/// line rather than each finding their own.
pub fn footer_text_y() -> (y: u128)
    ensures
        y == (FOOTER_ROW - BODY_LINE) / 2,
{
    (FOOTER_ROW - BODY_LINE) / 2
}

pub open spec fn header_height() -> int {
    16 + TITLE_LINE + 4 + STATUS_LINE + 14
}

pub open spec fn battery_height(has_battery: bool) -> int {
    if has_battery {
        14 + SECTION_LINE + 10 + BAR_HEIGHT + 10 + BODY_LINE + 14
    } else {
        0
    }
}

/// The agent list: a title, one row per agent, and a gap between rows (none
/// after the last).
pub open spec fn agents_height(rows: nat) -> int {
    14 + SECTION_LINE + 12 + rows * AGENT_ROW + (if rows > 0 { rows - 1 } else { 0 })
        * AGENT_GAP + 14
}

pub open spec fn hold_height() -> int {
    12 + SECTION_LINE + 10 + PILL_HEIGHT + 12
}

pub open spec fn footer_height() -> int {
    6 + 3 * FOOTER_ROW + 2 * FOOTER_GAP + 6
}

/// One separator above every section after the header; the battery section
/// takes its own with it when it is hidden.
pub open spec fn separators(has_battery: bool) -> int {
    if has_battery { 4 * SEPARATOR } else { 3 * SEPARATOR }
}

/// Every section's height, and the panel's total.
#[derive(Debug, Clone, Copy, PartialEq, Eq, Structural)]
pub struct PanelHeights {
    pub header: u128,
    pub battery: u128,
    pub agents: u128,
    pub hold: u128,
    pub footer: u128,
    pub total: u128,
}

pub open spec fn heights_spec(rows: nat, has_battery: bool) -> PanelHeights {
    PanelHeights {
        header: header_height() as u128,
        battery: battery_height(has_battery) as u128,
        agents: agents_height(rows) as u128,
        hold: hold_height() as u128,
        footer: footer_height() as u128,
        total: (header_height() + battery_height(has_battery) + agents_height(rows) + hold_height()
            + footer_height() + separators(has_battery)) as u128,
    }
}

impl PanelHeights {
    /// The heights for a panel listing `agent_rows` agents, with or without
    /// the battery section (a Mac with no battery hides it).
    pub fn new(agent_rows: usize, has_battery: bool) -> (heights: Self)
        ensures
            heights == heights_spec(agent_rows as nat, has_battery),
            heights.agents == agents_height(agent_rows as nat),
    {
        let header: u128 = 16 + TITLE_LINE + 4 + STATUS_LINE + 14;
        let battery: u128 = if has_battery {
            14 + SECTION_LINE + 10 + BAR_HEIGHT + 10 + BODY_LINE + 14
        } else {
            0
        };
        let rows = agent_rows as u128;
        let gaps: u128 = if rows > 0 { rows - 1 } else { 0 };
        let agents: u128 = 14 + SECTION_LINE + 12 + rows * AGENT_ROW + gaps * AGENT_GAP + 14;
        let hold: u128 = 12 + SECTION_LINE + 10 + PILL_HEIGHT + 12;
        let footer: u128 = 6 + 3 * FOOTER_ROW + 2 * FOOTER_GAP + 6;
        let rules: u128 = if has_battery { 4 * SEPARATOR } else { 3 * SEPARATOR };
        PanelHeights {
            header,
            battery,
            agents,
            hold,
            footer,
            total: header + battery + agents + hold + footer + rules,
        }
    }
}

/// A placed band of the panel: its bottom edge and its height, in the panel's
/// own bottom-left-origin coordinates.
#[derive(Debug, Clone, Copy, PartialEq, Eq, Structural)]
pub struct Slot {
    pub y: u128,
    pub height: u128,
}

impl Slot {
    pub open spec fn top_spec(self) -> int {
        self.y + self.height
    }

    /// The band's upper edge.
    pub fn top(self) -> (t: u128)
        requires
            self.y + self.height <= u128::MAX,
        ensures
            t == self.top_spec(),
    {
        self.y + self.height
    }
}

/// Where every section and separator sits.
#[derive(Debug)]
pub struct PanelStack {
    pub header: Slot,
    /// `None` when the battery section is hidden.
    pub battery: Option<Slot>,
    pub agents: Slot,
    pub hold: Slot,
    pub footer: Slot,
    /// One rule above every section after the header, top-down.
    pub rules: Vec<Slot>,
    pub total: u128,
}

/// The sections and rules, top-down, for the given heights.
pub open spec fn bands_for(h: PanelHeights, has_battery: bool) -> Seq<Slot> {
    let header = Slot { y: (h.total - h.header) as u128, height: h.header };
    let rule0 = Slot { y: (header.y - SEPARATOR) as u128, height: SEPARATOR };
    let battery = Slot { y: (rule0.y - h.battery) as u128, height: h.battery };
    let rule_b = Slot { y: (battery.y - SEPARATOR) as u128, height: SEPARATOR };
    let above_agents = if has_battery { rule_b.y } else { rule0.y };
    let agents = Slot { y: (above_agents - h.agents) as u128, height: h.agents };
    let rule1 = Slot { y: (agents.y - SEPARATOR) as u128, height: SEPARATOR };
    let hold = Slot { y: (rule1.y - h.hold) as u128, height: h.hold };
    let rule2 = Slot { y: (hold.y - SEPARATOR) as u128, height: SEPARATOR };
    let footer = Slot { y: (rule2.y - h.footer) as u128, height: h.footer };
    if has_battery {
        seq![header, rule0, battery, rule_b, agents, rule1, hold, rule2, footer]
    } else {
        seq![header, rule0, agents, rule1, hold, rule2, footer]
    }
}

/// The panel's bands, top-down, for `rows` agents.
pub open spec fn stack_bands(rows: nat, has_battery: bool) -> Seq<Slot> {
    bands_for(heights_spec(rows, has_battery), has_battery)
}

impl PanelStack {
    /// The sections that the stack places, and its rules.
    pub open spec fn matches(&self, rows: nat, has_battery: bool) -> bool {
        let b = stack_bands(rows, has_battery);
        &&& self.total == heights_spec(rows, has_battery).total
        &&& self.header == b[0]
        &&& if has_battery {
            &&& self.battery == Some(b[2])
            &&& self.agents == b[4]
            &&& self.hold == b[6]
            &&& self.footer == b[8]
            &&& self.rules@ == seq![b[1], b[3], b[5], b[7]]
        } else {
            &&& self.battery.is_none()
            &&& self.agents == b[2]
            &&& self.hold == b[4]
            &&& self.footer == b[6]
            &&& self.rules@ == seq![b[1], b[3], b[5]]
        }
    }

    /// Places every section top-down, with a rule above each one after the
    /// header.
    pub fn new(agent_rows: usize, has_battery: bool) -> (stack: Self)
        ensures
            stack.matches(agent_rows as nat, has_battery),
            stack.well_formed(),
            stack.header.height == heights_spec(agent_rows as nat, has_battery).header,
            stack.agents.height == heights_spec(agent_rows as nat, has_battery).agents,
            stack.hold.height == heights_spec(agent_rows as nat, has_battery).hold,
            stack.footer.height == heights_spec(agent_rows as nat, has_battery).footer,
    {
        let heights = PanelHeights::new(agent_rows, has_battery);
        let ghost b = stack_bands(agent_rows as nat, has_battery);
        let mut cursor: u128 = heights.total;
        let mut rules: Vec<Slot> = Vec::new();

        cursor = cursor - heights.header;
        let header = Slot { y: cursor, height: heights.header };

        cursor = cursor - SEPARATOR;
        rules.push(Slot { y: cursor, height: SEPARATOR });

        let battery = if has_battery {
            cursor = cursor - heights.battery;
            let slot = Slot { y: cursor, height: heights.battery };
            cursor = cursor - SEPARATOR;
            rules.push(Slot { y: cursor, height: SEPARATOR });
            Some(slot)
        } else {
            None
        };

        cursor = cursor - heights.agents;
        let agents = Slot { y: cursor, height: heights.agents };
        cursor = cursor - SEPARATOR;
        rules.push(Slot { y: cursor, height: SEPARATOR });

        cursor = cursor - heights.hold;
        let hold = Slot { y: cursor, height: heights.hold };
        cursor = cursor - SEPARATOR;
        rules.push(Slot { y: cursor, height: SEPARATOR });

        cursor = cursor - heights.footer;
        let footer = Slot { y: cursor, height: heights.footer };

        let stack = PanelStack { header, battery, agents, hold, footer, rules, total: heights.total };
        assert(stack.rules@ =~= if has_battery {
            seq![b[1], b[3], b[5], b[7]]
        } else {
            seq![b[1], b[3], b[5]]
        });
        stack
    }

    /// The rules match the sections: four with the battery section, three
    /// without.
    pub open spec fn well_formed(&self) -> bool {
        self.rules@.len() == if self.battery.is_some() { 4nat } else { 3nat }
    }

    /// The bands as the stack holds them, top-down.
    pub open spec fn bands_spec(&self) -> Seq<Slot> {
        match self.battery {
            Some(battery) => seq![
                self.header, self.rules@[0], battery, self.rules@[1], self.agents,
                self.rules@[2], self.hold, self.rules@[3], self.footer,
            ],
            None => seq![
                self.header, self.rules@[0], self.agents, self.rules@[1], self.hold,
                self.rules@[2], self.footer,
            ],
        }
    }

    /// Every band in the panel, top-down: a larger `y` is further up.
    pub fn bands(&self) -> (bands: Vec<Slot>)
        requires
            self.well_formed(),
        ensures
            bands@ == self.bands_spec(),
    {
        let mut bands: Vec<Slot> = Vec::new();
        bands.push(self.header);
        bands.push(self.rules[0]);
        let mut next_rule: usize = 1;
        match self.battery {
            Some(slot) => {
                bands.push(slot);
                bands.push(self.rules[1]);
                next_rule = 2;
            },
            None => {},
        }
        bands.push(self.agents);
        bands.push(self.rules[next_rule]);
        bands.push(self.hold);
        bands.push(self.rules[next_rule + 1]);
        bands.push(self.footer);
        assert(bands@ =~= self.bands_spec());
        bands
    }
}

/// Every height of a panel with a machine-sized number of agent rows fits the
/// integer type it is computed in.
pub proof fn lemma_heights_fit(rows: nat)
    requires
        rows <= usize::MAX,
    ensures
        59 <= agents_height(rows) <= 0x1_0000_0000_0000_0000_0000,
{
    assert(0 <= rows * AGENT_ROW <= 0x1_0000_0000_0000_0000 * AGENT_ROW) by (nonlinear_arith)
        requires
            rows <= 0x1_0000_0000_0000_0000,
    ;
    assert(0 <= rows * AGENT_GAP <= 0x1_0000_0000_0000_0000 * AGENT_GAP) by (nonlinear_arith)
        requires
            rows <= 0x1_0000_0000_0000_0000,
    ;
    if rows > 0 {
        assert((rows - 1) * AGENT_GAP <= rows * AGENT_GAP) by (nonlinear_arith)
            requires
                rows > 0,
        ;
    }
}

/// The total is the sum of what is drawn: every section, plus one separator
/// above each section after the header.
pub proof fn lemma_total_is_sum_of_drawn(rows: nat, has_battery: bool)
    requires
        rows <= usize::MAX,
    ensures
        ({
            let h = heights_spec(rows, has_battery);
            h.total == h.header + h.battery + h.agents + h.hold + h.footer
                + (if has_battery { 4 * SEPARATOR } else { 3 * SEPARATOR })
        }),
{
    lemma_heights_fit(rows);
}

/// Hiding the battery section shortens the panel by exactly that section and
/// its rule, and a hidden section has no height.
pub proof fn lemma_hiding_battery_shortens_by_it_and_its_rule(rows: nat)
    requires
        rows <= usize::MAX,
    ensures
        heights_spec(rows, false).battery == 0,
        heights_spec(rows, true).total - heights_spec(rows, false).total
            == heights_spec(rows, true).battery + SEPARATOR,
{
    lemma_heights_fit(rows);
}

/// Each agent row adds its own height, and every row after the first also
/// adds one gap: a single row adds no gap.
pub proof fn lemma_agent_rows_grow_the_list(rows: nat)
    requires
        rows < usize::MAX,
    ensures
        heights_spec(rows + 1, false).agents - heights_spec(rows, false).agents
            == if rows == 0 { AGENT_ROW as int } else { AGENT_ROW + AGENT_GAP },
        heights_spec(rows, true).agents == heights_spec(rows, false).agents,
{
    lemma_heights_fit(rows);
    lemma_heights_fit(rows + 1);
    assert(heights_spec(rows + 1, false).agents == agents_height(rows + 1));
    assert(heights_spec(rows, false).agents == agents_height(rows));
    assert(agents_height(rows + 1) == agents_height(rows) + AGENT_ROW + if rows == 0 {
        0
    } else {
        AGENT_GAP as int
    }) by (nonlinear_arith);
}

/// The bands tile the panel: the first starts at the top, each starts where
/// the one above it ends, none is empty, and the last reaches the bottom. So
/// nothing overlaps and nothing is left over, whatever the number of agents.
pub proof fn lemma_bands_tile_the_panel(rows: nat, has_battery: bool)
    requires
        rows <= usize::MAX,
    ensures
        ({
            let b = stack_bands(rows, has_battery);
            &&& b.len() == if has_battery { 9nat } else { 7nat }
            &&& b[0].top_spec() == heights_spec(rows, has_battery).total
            &&& forall|i: int| 1 <= i < b.len() ==> #[trigger] b[i].top_spec() == b[i - 1].y
            &&& forall|i: int| 0 <= i < b.len() ==> #[trigger] b[i].height > 0
            &&& b[b.len() - 1].y == 0
        }),
{
    lemma_heights_fit(rows);
    let b = stack_bands(rows, has_battery);
    assert forall|i: int| 1 <= i < b.len() implies #[trigger] b[i].top_spec() == b[i - 1].y by {}
}

/// A stack built for some panel holds exactly that panel's bands, in
/// reading order: the header above the battery, the battery above the agents,
/// the agents above the hold presets, and the footer on the bottom edge.
pub proof fn lemma_stack_runs_in_reading_order(stack: &PanelStack, rows: nat, has_battery: bool)
    requires
        rows <= usize::MAX,
        stack.matches(rows, has_battery),
    ensures
        stack.well_formed(),
        stack.bands_spec() == stack_bands(rows, has_battery),
        stack.battery.is_some() == has_battery,
        stack.rules@.len() == if has_battery { 4nat } else { 3nat },
        has_battery ==> stack.header.y > stack.battery.unwrap().y > stack.agents.y,
        stack.header.y > stack.agents.y > stack.hold.y > stack.footer.y,
        stack.footer.y == 0,
{
    lemma_bands_tile_the_panel(rows, has_battery);
    let b = stack_bands(rows, has_battery);
    assert(stack.bands_spec() =~= b);
    if has_battery {
        assert(b[1].top_spec() == b[0].y);
        assert(b[2].top_spec() == b[1].y);
        assert(b[3].top_spec() == b[2].y);
        assert(b[4].top_spec() == b[3].y);
        assert(b[5].top_spec() == b[4].y);
        assert(b[6].top_spec() == b[5].y);
        assert(b[7].top_spec() == b[6].y);
        assert(b[8].top_spec() == b[7].y);
        assert(b[1].height > 0 && b[2].height > 0 && b[3].height > 0 && b[4].height > 0);
        assert(b[5].height > 0 && b[6].height > 0 && b[7].height > 0 && b[8].height > 0);
    } else {
        assert(b[1].top_spec() == b[0].y);
        assert(b[2].top_spec() == b[1].y);
        assert(b[3].top_spec() == b[2].y);
        assert(b[4].top_spec() == b[3].y);
        assert(b[5].top_spec() == b[4].y);
        assert(b[6].top_spec() == b[5].y);
        assert(b[1].height > 0 && b[2].height > 0 && b[3].height > 0 && b[4].height > 0);
        assert(b[5].height > 0 && b[6].height > 0);
    }
}

/// Every placed band is as tall as its own section: the header, battery,
/// agents, hold and footer bands each carry that section's height, the
/// agents band grows with the agent rows, and every rule is one separator
/// tall.
pub proof fn lemma_each_band_has_its_sections_height(stack: &PanelStack, rows: nat, has_battery: bool)
    requires
        rows <= usize::MAX,
        stack.matches(rows, has_battery),
    ensures
        stack.header.height == header_height(),
        stack.agents.height == agents_height(rows),
        stack.hold.height == hold_height(),
        stack.footer.height == footer_height(),
        has_battery ==> stack.battery.unwrap().height == battery_height(true),
        forall|i: int| 0 <= i < stack.rules@.len() ==> #[trigger] stack.rules@[i].height == SEPARATOR,
{
    lemma_heights_fit(rows);
    let b = stack_bands(rows, has_battery);
    if has_battery {
        assert(stack.rules@ == seq![b[1], b[3], b[5], b[7]]);
    } else {
        assert(stack.rules@ == seq![b[1], b[3], b[5]]);
    }
}

} // verus!
