//! Tests of the Browser Lifecycle Facade rules.

use chromium_swt::browser::{
    confirm_release, focus_plan, plan_close, plan_create, plan_load_url, resize_action,
    url_from_frame, BrowserHandle, ResizeAction,
};
use chromium_swt::{BridgeError, Platform};

#[test]
fn adopt_interprets_the_engine_token() {
    assert!(BrowserHandle::adopt(0).is_none());
    let h = BrowserHandle::adopt(7).unwrap();
    assert_eq!(h.id, 7);
    assert!(!h.released);
}

#[test]
fn release_once_is_accepted_and_twice_is_rejected() {
    let mut h = BrowserHandle::adopt(7).unwrap();
    let req = h.release().unwrap();
    assert_eq!(req.id, 7);
    // the engine reports one remaining internal reference: sound
    assert!(confirm_release(1).is_ok());
    // a second release never reaches the engine
    assert_eq!(h.release().unwrap_err(), BridgeError::HandleAlreadyReleased);
}

#[test]
fn unexpected_reference_counts_are_surfaced() {
    assert_eq!(confirm_release(0).unwrap_err(), BridgeError::RefCountMismatch);
    assert_eq!(confirm_release(2).unwrap_err(), BridgeError::RefCountMismatch);
}

#[test]
fn create_screens_the_client_record_size() {
    let url = b"https://example.test".to_vec();
    let req = plan_create(42, &url, 800, 600, 128, 128).unwrap();
    assert_eq!(req.window, 42);
    assert_eq!(req.url, url);
    assert_eq!(req.width, 800);
    assert_eq!(req.height, 600);
    assert_eq!(
        plan_create(42, &url, 800, 600, 120, 128).unwrap_err(),
        BridgeError::AbiMismatch
    );
}

#[test]
fn released_handles_are_rejected_before_the_engine() {
    let mut h = BrowserHandle::adopt(9).unwrap();
    h.release().unwrap();
    assert_eq!(plan_close(&h).unwrap_err(), BridgeError::HandleAlreadyReleased);
    assert_eq!(
        plan_load_url(&h, &b"https://example.test".to_vec()).unwrap_err(),
        BridgeError::HandleAlreadyReleased
    );
}

#[test]
fn live_handles_plan_close_and_load() {
    let h = BrowserHandle::adopt(9).unwrap();
    let close = plan_close(&h).unwrap();
    assert_eq!(close.id, 9);
    // the close is requested gracefully, never forced
    assert!(!close.force);
    let req = plan_load_url(&h, &b"https://example.test".to_vec()).unwrap();
    assert_eq!(req.id, 9);
    assert_eq!(req.url, b"https://example.test".to_vec());
}

#[test]
fn get_url_without_a_frame_is_empty_not_a_fault() {
    assert_eq!(url_from_frame(None), Vec::<u8>::new());
    assert_eq!(
        url_from_frame(Some(b"https://example.test".to_vec())),
        b"https://example.test".to_vec()
    );
}

#[test]
fn resize_is_explicit_on_x11_and_win32_only() {
    assert_eq!(resize_action(Platform::Cocoa, 640, 480), ResizeAction::NoAction);
    assert_eq!(
        resize_action(Platform::X11, 640, 480),
        ResizeAction::ConfigureWindow { x: 0, y: 0, width: 640, height: 480 }
    );
    assert_eq!(
        resize_action(Platform::Win32, 640, 480),
        ResizeAction::SetWindowPosition { x: 0, y: 0, width: 640, height: 480 }
    );
}

#[test]
fn defocus_with_fallback_presents_exactly_once_on_x11() {
    let plan = focus_plan(Platform::X11, false, 55);
    assert!(!plan.engine_focus);
    // at most one present call is possible, and here it is exactly one
    assert_eq!(plan.present_fallback, Some(55));
}

#[test]
fn focus_plans_without_the_workaround() {
    assert_eq!(focus_plan(Platform::X11, true, 55).present_fallback, None);
    assert_eq!(focus_plan(Platform::X11, false, 0).present_fallback, None);
    assert_eq!(focus_plan(Platform::Cocoa, false, 55).present_fallback, None);
    assert_eq!(focus_plan(Platform::Win32, false, 55).present_fallback, None);
    assert!(focus_plan(Platform::Cocoa, true, 0).engine_focus);
}
