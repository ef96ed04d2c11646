//! Verified decision logic of a tiny fullscreen X11/GLX program: the window
//! request it sends, the GLX visual it asks for, the window-manager atoms and
//! properties that make the window fullscreen, and the session state machine
//! that drives the connection from opening the display to the exit status.
use vstd::prelude::*;

pub mod text;
pub mod xconst;
pub mod window;
pub mod atoms;
pub mod session;

verus! {

} // verus!
