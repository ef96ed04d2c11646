//! The window the program asks the X server for, and the GLX visual it needs.
use vstd::prelude::*;
use crate::xconst::{
    CWBACK_PIXEL, CWCOLORMAP, CWEVENT_MASK, EXPOSURE_MASK, GLX_BLUE_SIZE, GLX_GREEN_SIZE,
    GLX_RED_SIZE, GLX_RGBA, INPUT_OUTPUT, KEY_PRESS_MASK, KEY_RELEASE_MASK, X_NONE,
};

verus! {

/// Width of the fullscreen window, in pixels.
pub const WINDOW_WIDTH: u32 = 1920;

/// Height of the fullscreen window, in pixels.
pub const WINDOW_HEIGHT: u32 = 1080;

/// The fields of `XSetWindowAttributes` that the program fills in.
#[derive(Clone, Copy, Debug, PartialEq, Eq)]
pub struct WindowAttributes {
    pub colormap: u64,
    pub event_mask: i64,
    pub background_pixel: u64,
}

/// The arguments of `XCreateWindow` that do not come from the chosen visual.
#[derive(Clone, Copy, Debug, PartialEq, Eq)]
pub struct WindowRequest {
    pub x: i32,
    pub y: i32,
    pub width: u32,
    pub height: u32,
    pub border_width: u32,
    pub class: u32,
    pub value_mask: u64,
    pub attributes: WindowAttributes,
}

/// The events the window listens to: exposure and key presses.
pub open spec fn window_event_mask() -> i64 {
    EXPOSURE_MASK | KEY_PRESS_MASK
}

/// The attribute fields named in the value mask: colormap, event mask and
/// background pixel, which are the three fields the attributes carry.
pub open spec fn window_value_mask() -> u64 {
    CWCOLORMAP | CWEVENT_MASK | CWBACK_PIXEL
}

/// The window request for a visual whose colormap is `colormap`, painted with
/// `background_pixel` (the screen's white pixel): a borderless
/// `WINDOW_WIDTH` x `WINDOW_HEIGHT` input-output window at the origin that
/// listens to exposure and key presses.
pub fn window_request(colormap: u64, background_pixel: u64) -> (r: WindowRequest)
    ensures
        r.x == 0 && r.y == 0,
        r.width == WINDOW_WIDTH && r.height == WINDOW_HEIGHT,
        r.border_width == 0,
        r.class == INPUT_OUTPUT,
        r.value_mask == window_value_mask(),
        r.attributes.colormap == colormap,
        r.attributes.background_pixel == background_pixel,
        r.attributes.event_mask == window_event_mask(),
        // Key presses reach the window; key releases and nothing else but
        // exposure do.
        r.attributes.event_mask & KEY_PRESS_MASK == KEY_PRESS_MASK,
        r.attributes.event_mask & EXPOSURE_MASK == EXPOSURE_MASK,
        r.attributes.event_mask & KEY_RELEASE_MASK == 0,
        r.attributes.event_mask == 0x8001,
        // The value mask names exactly the colormap, event mask and
        // background pixel fields.
        r.value_mask & CWCOLORMAP == CWCOLORMAP,
        r.value_mask & CWEVENT_MASK == CWEVENT_MASK,
        r.value_mask & CWBACK_PIXEL == CWBACK_PIXEL,
        r.value_mask == 0x2802,
{
    let event_mask: i64 = EXPOSURE_MASK | KEY_PRESS_MASK;
    let value_mask: u64 = CWCOLORMAP | CWEVENT_MASK | CWBACK_PIXEL;
    assert(event_mask == 0x8001i64) by (bit_vector)
        requires event_mask == 0x8000i64 | 0x0001i64;
    assert(value_mask == 0x2802u64) by (bit_vector)
        requires value_mask == 0x2000u64 | 0x0800u64 | 0x0002u64;
    assert(event_mask & 1i64 == 1i64 && event_mask & 0x8000i64 == 0x8000i64
        && event_mask & 2i64 == 0i64) by (bit_vector)
        requires event_mask == 0x8001i64;
    assert(value_mask & 0x2000u64 == 0x2000u64 && value_mask & 0x0800u64 == 0x0800u64
        && value_mask & 0x0002u64 == 0x0002u64) by (bit_vector)
        requires value_mask == 0x2802u64;
    WindowRequest {
        x: 0,
        y: 0,
        width: WINDOW_WIDTH,
        height: WINDOW_HEIGHT,
        border_width: 0,
        class: INPUT_OUTPUT as u32,
        value_mask,
        attributes: WindowAttributes { colormap, event_mask, background_pixel },
    }
}

/// The GLX attribute list the program chooses its visual with.
pub open spec fn spec_visual_attributes() -> Seq<i32> {
    seq![GLX_RGBA, GLX_RED_SIZE, 8, GLX_GREEN_SIZE, 8, GLX_BLUE_SIZE, 8, X_NONE]
}

/// The attribute list for `glXChooseVisual`: an RGBA visual with at least
/// eight bits of red, green and blue, terminated by `None`.
pub fn visual_attributes() -> (r: Vec<i32>)
    ensures
        r@ == spec_visual_attributes(),
        // `glXChooseVisual` reads up to the first `None`: the list holds one,
        // at its end.
        r@.len() > 0,
        r@.last() == X_NONE,
        forall|i: int| 0 <= i < r@.len() - 1 ==> r@[i] != X_NONE,
{
    let r: Vec<i32> = vec![GLX_RGBA, GLX_RED_SIZE, 8, GLX_GREEN_SIZE, 8, GLX_BLUE_SIZE, 8, X_NONE];
    assert(r@ =~= spec_visual_attributes());
    r
}

} // verus!
