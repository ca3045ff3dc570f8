use rust_browser_control::error::ErrorOf;
use rust_browser_control::json::json_text;
use rust_browser_control::limits::{
    cdp_event_wait_granted, cdp_events_granted, default_cdp_event_limit, default_cdp_event_timeout,
    default_download_timeout, default_drag_steps, default_element_limit, default_timeout,
    default_true, download_wait_granted, empty_object, page_assets, wait_granted, AssetsOf,
};

#[test]
fn what_is_left_out_has_its_usual_value() {
    assert_eq!(default_drag_steps(), 12);
    assert_eq!(default_element_limit(), 20);
    assert!(default_true());
    assert_eq!(default_timeout(), 15_000);
    assert_eq!(default_cdp_event_timeout(), 2_000);
    assert_eq!(default_cdp_event_limit(), 100);
    assert_eq!(default_download_timeout(), 60_000);
    assert_eq!(json_text(&empty_object()), "{}");
}

#[test]
fn no_more_is_granted_than_there_is() {
    assert_eq!(wait_granted(0), 0);
    assert_eq!(wait_granted(60_000), 60_000);
    assert_eq!(wait_granted(60_001), 60_000);
    assert_eq!(download_wait_granted(119_999), 119_999);
    assert_eq!(download_wait_granted(u64::MAX), 120_000);
    assert_eq!(cdp_event_wait_granted(29_999), 29_999);
    assert_eq!(cdp_event_wait_granted(30_001), 30_000);
    assert_eq!(cdp_events_granted(1000), 1000);
    assert_eq!(cdp_events_granted(usize::MAX), 1000);
}

#[test]
fn assets_are_listed_or_bundled() {
    assert_eq!(page_assets("list", None), Ok(AssetsOf::List));
    assert_eq!(page_assets("list", Some("i")), Ok(AssetsOf::List));
    assert_eq!(page_assets("bundle", Some("i")), Ok(AssetsOf::Bundle("i".to_owned())));
    assert_eq!(page_assets("bundle", None), Err(ErrorOf::NoInventory));
    assert_eq!(page_assets("List", None), Err(ErrorOf::AssetsAction));
    assert_eq!(
        page_assets("bundle", None).unwrap_err().message(),
        "page_assets bundle requires inventory_id"
    );
    assert_eq!(
        page_assets("", None).unwrap_err().message(),
        "page_assets action must be list or bundle"
    );
}
