use opencap::capture::{composite, MonitorInfo};
use opencap::errors::{ProtocolError, RegionError, SessionError};
use opencap::image_data::Image;
use opencap::session::{
    cancel_region_capture, capture_full_and_finish, finish_monitor_capture,
    finish_region_capture, get_pending_data_url, get_screen_layout, publish_capture,
    PendingCapture, PendingDataUrl, PendingScreenLayout,
};

fn fresh_stores() -> (PendingCapture, PendingDataUrl, PendingScreenLayout) {
    (
        PendingCapture(None),
        PendingDataUrl(None),
        PendingScreenLayout { slot: None, surface_pending: false },
    )
}

fn solid(width: u32, height: u32, value: u8) -> Image {
    Image { width, height, data: vec![value; (width as usize) * (height as usize) * 4] }
}

fn publish_one_display(
    capture: &mut PendingCapture,
    url: &mut PendingDataUrl,
    layout: &mut PendingScreenLayout,
    value: u8,
) {
    let m = MonitorInfo { x: 0, y: 0, width: 4, height: 3 };
    let cc = composite(vec![(m, solid(4, 3, value))]).unwrap();
    publish_capture(cc, String::from("data:demo"), capture, url, layout);
}

#[test]
fn pending_capture_is_take_once() {
    let (mut capture, mut url, mut layout) = fresh_stores();
    publish_one_display(&mut capture, &mut url, &mut layout, 9);
    let first = capture_full_and_finish(&mut capture);
    assert!(first.is_ok());
    assert_eq!(first.unwrap().data, vec![9u8; 4 * 3 * 4]);
    let second = capture_full_and_finish(&mut capture);
    assert_eq!(second.unwrap_err(), ProtocolError::NoPendingCapture);
    // a fresh capture makes exactly one take succeed again
    publish_one_display(&mut capture, &mut url, &mut layout, 5);
    assert!(capture_full_and_finish(&mut capture).is_ok());
    assert_eq!(
        capture_full_and_finish(&mut capture).unwrap_err(),
        ProtocolError::NoPendingCapture
    );
}

#[test]
fn data_url_is_take_once() {
    let (mut capture, mut url, mut layout) = fresh_stores();
    publish_one_display(&mut capture, &mut url, &mut layout, 1);
    assert_eq!(get_pending_data_url(&mut url).unwrap(), "data:demo");
    assert_eq!(get_pending_data_url(&mut url).unwrap_err(), ProtocolError::NoPendingData);
}

#[test]
fn layout_request_is_take_once_but_slot_serves_finalize() {
    let (mut capture, mut url, mut layout) = fresh_stores();
    assert_eq!(get_screen_layout(&mut layout).unwrap_err(), ProtocolError::NoPendingData);
    publish_one_display(&mut capture, &mut url, &mut layout, 1);
    // the surface gets the layout exactly once
    let l1 = get_screen_layout(&mut layout).unwrap();
    assert_eq!(l1.virtual_width, 4);
    assert_eq!(l1.virtual_height, 3);
    assert_eq!(l1.monitors.len(), 1);
    assert_eq!(get_screen_layout(&mut layout).unwrap_err(), ProtocolError::NoPendingData);
    // the layout itself stays in the slot: the monitor finalize still works
    let out = finish_monitor_capture(&mut capture, &layout, 0).unwrap();
    assert_eq!(out.width, 4);
    assert_eq!(out.height, 3);
    // a fresh publish grants exactly one new read
    publish_one_display(&mut capture, &mut url, &mut layout, 2);
    assert!(get_screen_layout(&mut layout).is_ok());
    assert_eq!(get_screen_layout(&mut layout).unwrap_err(), ProtocolError::NoPendingData);
}

#[test]
fn finish_region_consumes_capture_once() {
    let (mut capture, mut url, mut layout) = fresh_stores();
    publish_one_display(&mut capture, &mut url, &mut layout, 7);
    let out = finish_region_capture(&mut capture, 1, 1, 2, 2).unwrap();
    assert_eq!(out.width, 2);
    assert_eq!(out.height, 2);
    assert_eq!(out.data, vec![7u8; 2 * 2 * 4]);
    let again = finish_region_capture(&mut capture, 0, 0, 1, 1);
    assert_eq!(
        again.unwrap_err(),
        SessionError::Protocol(ProtocolError::NoPendingCapture)
    );
}

#[test]
fn selection_errors_keep_captured_state() {
    let (mut capture, mut url, mut layout) = fresh_stores();
    publish_one_display(&mut capture, &mut url, &mut layout, 3);
    // out of bounds: 4x3 canvas
    let oob = finish_region_capture(&mut capture, 2, 0, 3, 1);
    assert_eq!(oob.unwrap_err(), SessionError::Region(RegionError::OutOfBounds));
    // zero-size region
    let empty = finish_region_capture(&mut capture, 0, 0, 0, 2);
    assert_eq!(empty.unwrap_err(), SessionError::Region(RegionError::EmptyRegion));
    // zero-size wins over out-of-bounds: empty even beyond the canvas
    let far_empty = finish_region_capture(&mut capture, 100, 100, 0, 50);
    assert_eq!(far_empty.unwrap_err(), SessionError::Region(RegionError::EmptyRegion));
    // the capture is still there: a valid selection succeeds
    assert!(finish_region_capture(&mut capture, 0, 0, 4, 3).is_ok());
}

#[test]
fn finish_monitor_maps_and_consumes() {
    let (mut capture, mut url, mut layout) = fresh_stores();
    let m0 = MonitorInfo { x: 0, y: 0, width: 2, height: 2 };
    let m1 = MonitorInfo { x: 2, y: 0, width: 3, height: 1 };
    let cc = composite(vec![(m0, solid(2, 2, 50)), (m1, solid(3, 1, 60))]).unwrap();
    publish_capture(cc, String::from("data:demo"), &mut capture, &mut url, &mut layout);
    // an invalid index does not consume the capture
    let bad = finish_monitor_capture(&mut capture, &layout, 2);
    assert_eq!(
        bad.unwrap_err(),
        SessionError::Region(RegionError::InvalidMonitorIndex)
    );
    let out = finish_monitor_capture(&mut capture, &layout, 1).unwrap();
    assert_eq!(out.width, 3);
    assert_eq!(out.height, 1);
    assert_eq!(out.data, vec![60u8; 3 * 4]);
    let again = finish_monitor_capture(&mut capture, &layout, 0);
    assert_eq!(
        again.unwrap_err(),
        SessionError::Protocol(ProtocolError::NoPendingCapture)
    );
}

#[test]
fn finish_monitor_without_layout_is_protocol_error() {
    let (mut capture, _url, layout) = fresh_stores();
    capture.0 = Some(solid(2, 2, 1));
    let r = finish_monitor_capture(&mut capture, &layout, 0);
    assert_eq!(r.unwrap_err(), SessionError::Protocol(ProtocolError::NoPendingData));
    // the capture is untouched
    assert!(capture.0.is_some());
}

#[test]
fn cancel_clears_every_slot() {
    let (mut capture, mut url, mut layout) = fresh_stores();
    publish_one_display(&mut capture, &mut url, &mut layout, 2);
    cancel_region_capture(&mut capture, &mut url, &mut layout);
    assert!(capture.0.is_none());
    assert!(url.0.is_none());
    assert!(layout.slot.is_none());
    assert!(!layout.surface_pending);
    assert_eq!(get_screen_layout(&mut layout).unwrap_err(), ProtocolError::NoPendingData);
    assert_eq!(
        capture_full_and_finish(&mut capture).unwrap_err(),
        ProtocolError::NoPendingCapture
    );
}
