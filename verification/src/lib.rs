//! Gesture post-processing for an IMU glove: label corrections from the
//! orientation cues of a gesture window, the mapping from labels to HID
//! actions, and the mode logic of the HID side.
use vstd::prelude::*;

pub mod hid;
pub mod postprocess;
pub mod text;

verus! {

} // verus!
