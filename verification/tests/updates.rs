use close_my_lid::errors::GuiError;
use close_my_lid::updates::{
    after_linger, begin_check, finish_check, release_page, reply_accepted, UpdateInfo,
    UpdateStatus, RELEASES_URL,
};

fn info(version: &str) -> UpdateInfo {
    UpdateInfo {
        version: version.to_string(),
        url: format!("{RELEASES_URL}/download/v{version}/Close-My-Lid-v{version}-macOS.zip"),
    }
}

#[test]
fn an_update_opens_its_release_page_not_the_macos_archive() {
    let update = UpdateInfo {
        version: "0.6.0".to_string(),
        url: format!("{RELEASES_URL}/download/v0.6.0/Close-My-Lid-v0.6.0-macOS.zip"),
    };
    assert_eq!(release_page(&update), format!("{RELEASES_URL}/tag/v0.6.0"));
}

#[test]
fn a_leading_v_is_not_doubled() {
    assert_eq!(release_page(&info("v0.6.1")), format!("{RELEASES_URL}/tag/v0.6.1"));
    assert_eq!(release_page(&info("vv1")), format!("{RELEASES_URL}/tag/v1"));
}

#[test]
fn a_check_in_progress_is_not_started_twice() {
    assert!(begin_check(&UpdateStatus::Checking, true).is_none());
    assert!(matches!(begin_check(&UpdateStatus::Unchecked, true), Some(UpdateStatus::Checking)));
    assert!(matches!(begin_check(&UpdateStatus::Current, false), Some(UpdateStatus::Current)));
}

#[test]
fn a_failed_check_keeps_an_update_found_earlier() {
    let outcome = finish_check(
        UpdateStatus::Available(info("0.6.0")),
        true,
        Err(GuiError::UpdateFeed { detail: "offline".to_string() }),
    );
    assert!(matches!(&outcome.status, UpdateStatus::Available(update) if update.version == "0.6.0"));
    assert!(matches!(outcome.banner, Some(GuiError::UpdateFeed { .. })));

    let scheduled = finish_check(
        UpdateStatus::Unchecked,
        false,
        Err(GuiError::UpdateFeed { detail: "offline".to_string() }),
    );
    assert!(matches!(scheduled.status, UpdateStatus::Unchecked));
    assert!(scheduled.banner.is_none());
}

#[test]
fn finding_nothing_by_hand_lingers_then_clears() {
    let outcome = finish_check(UpdateStatus::Unchecked, true, Ok(None));
    assert!(matches!(outcome.status, UpdateStatus::Current));
    assert!(outcome.linger);
    assert!(matches!(after_linger(outcome.status), UpdateStatus::Unchecked));

    let found = finish_check(UpdateStatus::Unchecked, false, Ok(Some(info("1.0.0"))));
    assert!(matches!(found.status, UpdateStatus::Available(_)));
    assert!(!found.linger);
    assert!(matches!(after_linger(found.status), UpdateStatus::Available(_)));
}

#[test]
fn only_successful_replies_are_read() {
    assert!(reply_accepted(None));
    assert!(reply_accepted(Some(200)));
    assert!(reply_accepted(Some(299)));
    assert!(!reply_accepted(Some(304)));
    assert!(!reply_accepted(Some(404)));
}
