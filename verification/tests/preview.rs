use close_my_lid::pages::Page;
use close_my_lid::preview::{scene, PreviewHold, Scene};

#[test]
fn a_preview_opens_where_the_list_says() {
    assert_eq!(
        scene("agents", true),
        Scene { page: Some(Page::Agents), hold: None }
    );
    assert_eq!(
        scene(" settings , holding-1h ", true),
        Scene { page: Some(Page::Settings), hold: Some(PreviewHold::OneHour) }
    );
    assert_eq!(
        scene("holding,agents,holding-1h,settings", true),
        Scene { page: Some(Page::Settings), hold: Some(PreviewHold::OneHour) }
    );
    assert_eq!(
        scene("holding", true),
        Scene { page: None, hold: Some(PreviewHold::Unlimited) }
    );
}

#[test]
fn unknown_parts_and_empty_lists_are_ignored() {
    let plain = Scene { page: None, hold: None };
    assert_eq!(scene("", true), plain);
    assert_eq!(scene(",,", true), plain);
    assert_eq!(scene("overview, holding-2h, Agents", true), plain);
    assert_eq!(scene("\tagents\n", true), Scene { page: Some(Page::Agents), hold: None });
}

#[test]
fn only_a_preview_build_follows_the_list() {
    assert_eq!(scene("agents,holding", false), Scene { page: None, hold: None });
}

#[test]
fn every_unicode_space_is_trimmed_and_nothing_else() {
    let agents = Scene { page: Some(Page::Agents), hold: None };
    for code in 0u32..=0x10ffff {
        let Some(c) = char::from_u32(code) else { continue };
        if c == ',' {
            continue;
        }
        let opened = scene(&format!("{c}agents{c}"), true);
        if c.is_whitespace() {
            assert_eq!(opened, agents, "U+{code:04X} is white space");
        } else if opened == agents {
            panic!("U+{code:04X} is not white space but was trimmed");
        }
    }
}
