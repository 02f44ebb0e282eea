//! Host side of a small serial protocol that keeps a monitor's rotation in
//! step with a tilt sensor: the orientation model, the control codes, the
//! request/response exchange with its timeout, and the autorotation state
//! machine with its background listener.
use vstd::prelude::*;

pub mod autorotate;
pub mod code;
pub mod controller;
pub mod exchange;
pub mod listener;
pub mod orientation;

verus! {

} // verus!
