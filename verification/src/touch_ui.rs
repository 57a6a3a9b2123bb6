//! On-screen touch controls.
use vstd::prelude::*;

verus! {

/// Module that registers the on-screen virtual joystick overlay.
#[derive(Debug, Clone, Copy, PartialEq, Eq)]
pub struct TouchUiModule;

} // verus!
