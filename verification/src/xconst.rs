//! Protocol constants from Xlib, GLX and GL that the program's logic uses.
use vstd::prelude::*;

verus! {

/// Xlib's `Bool`, a C `int`.
pub type Bool = i32;

pub const FALSE: Bool = 0;

pub const CWBACK_PIXEL: u64 = 0x0002;

pub const KEY_PRESS_MASK: i64 = 0x0000_0001;

pub const KEY_RELEASE_MASK: i64 = 0x0000_0002;

pub const CLIENT_MESSAGE: i32 = 33;

pub const KEY_PRESS: i32 = 2;

pub const LINE_SOLID: i32 = 0;

pub const CAP_BUTT: i32 = 1;

pub const JOIN_BEVEL: i32 = 2;

pub const FILL_SOLID: i32 = 0;

pub const INPUT_OUTPUT: i32 = 1;

pub const CWEVENT_MASK: u64 = 0x0800;

pub const CWCOLORMAP: u64 = 0x2000;

pub const EXPOSURE_MASK: i64 = 0x0000_8000;

pub const ALLOC_NONE: i32 = 0;

pub const PROP_MODE_REPLACE: i32 = 0;

pub const KEY_RELEASE: i32 = 3;

/// `None` of `X.h`: the terminator of a GLX attribute list.
pub const X_NONE: i32 = 0;

/// `GLX_RGBA` of `glx.h`: ask for a true-colour visual.
pub const GLX_RGBA: i32 = 4;

/// `GLX_RED_SIZE` of `glx.h`.
pub const GLX_RED_SIZE: i32 = 8;

/// `GLX_GREEN_SIZE` of `glx.h`.
pub const GLX_GREEN_SIZE: i32 = 9;

/// `GLX_BLUE_SIZE` of `glx.h`.
pub const GLX_BLUE_SIZE: i32 = 10;

/// `GL_TRUE` of `gl.h`.
pub const GL_TRUE: i32 = 1;

/// `GL_DEPTH_TEST` of `gl.h`.
pub const GL_DEPTH_TEST: u32 = 0x0B71;

/// Hardware keycode of the Escape key under the evdev keymap.
pub const ESCAPE_KEYCODE: u32 = 9;

/// File descriptor of standard output.
pub const STDOUT_FD: i32 = 1;

} // verus!
