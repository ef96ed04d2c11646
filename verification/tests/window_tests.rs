use fourkay::window::{visual_attributes, window_request, WINDOW_HEIGHT, WINDOW_WIDTH};
use fourkay::xconst::{
    CWBACK_PIXEL, CWCOLORMAP, CWEVENT_MASK, EXPOSURE_MASK, INPUT_OUTPUT, KEY_PRESS_MASK,
    KEY_RELEASE_MASK,
};

#[test]
fn window_request_is_fullscreen_sized_at_origin() {
    let r = window_request(0x20, 0xffffff);
    assert_eq!((r.x, r.y), (0, 0));
    assert_eq!((r.width, r.height), (1920, 1080));
    assert_eq!((WINDOW_WIDTH, WINDOW_HEIGHT), (1920, 1080));
    assert_eq!(r.border_width, 0);
    assert_eq!(r.class, INPUT_OUTPUT as u32);
}

#[test]
fn window_request_carries_colormap_and_pixel() {
    let r = window_request(0x4a_0001, 0x00ff_ffff);
    assert_eq!(r.attributes.colormap, 0x4a_0001);
    assert_eq!(r.attributes.background_pixel, 0x00ff_ffff);
    let r = window_request(0, 0);
    assert_eq!(r.attributes.colormap, 0);
    assert_eq!(r.attributes.background_pixel, 0);
}

#[test]
fn window_listens_to_key_presses_and_exposure_only() {
    let r = window_request(1, 2);
    assert_eq!(r.attributes.event_mask, 0x8001);
    assert_eq!(r.attributes.event_mask, EXPOSURE_MASK | KEY_PRESS_MASK);
    assert_ne!(r.attributes.event_mask & KEY_PRESS_MASK, 0);
    assert_eq!(r.attributes.event_mask & KEY_RELEASE_MASK, 0);
}

#[test]
fn value_mask_names_the_three_fields() {
    let r = window_request(1, 2);
    assert_eq!(r.value_mask, 0x2802);
    assert_eq!(r.value_mask, CWCOLORMAP | CWEVENT_MASK | CWBACK_PIXEL);
}

#[test]
fn visual_attributes_ask_for_rgba_888_and_end_in_none() {
    let a = visual_attributes();
    assert_eq!(a, vec![4, 8, 8, 9, 8, 10, 8, 0]);
    assert_eq!(*a.last().unwrap(), 0);
    assert!(a[..a.len() - 1].iter().all(|&x| x != 0));
}
