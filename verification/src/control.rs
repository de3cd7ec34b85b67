//! The control loop's decision step: one fresh acceleration sample plus the
//! current sensitivity bound become one display command.

use vstd::prelude::*;

use crate::frame::{empty_frame, frame_single_lit, move_bubble};
use crate::quantizer::{quantize, quantize_spec};
use crate::sensitivity::SensitivityState;

verus! {

/// How long the display collaborator shows one frame, in milliseconds.
pub const FRAME_MS: u32 = 200;

/// One accelerometer reading, in milli-g per axis.
pub struct AccelSample {
    pub x: i32,
    pub y: i32,
    pub z: i32,
}

/// What the control loop asks of the display collaborator: show a frame
/// for a fixed duration, or clear it at once.
pub enum DisplayCommand {
    Show { frame: [[u8; 5]; 5], duration_ms: u32 },
    Clear,
}

/// One pass of the rendering state: quantize the horizontal axes, negate
/// the vertical-axis offset to match the row ordering, and show the bubble
/// only while the board faces down (z < 0); otherwise clear the display.
pub fn control_step(sample: &AccelSample, state: &SensitivityState) -> (cmd: DisplayCommand)
    requires
        state.is_valid(),
    ensures
        sample.z >= 0 ==> cmd is Clear,
        sample.z < 0 ==> (cmd matches DisplayCommand::Show { frame, duration_ms }
            && duration_ms == FRAME_MS
            && frame_single_lit(
            frame,
            2 - quantize_spec(sample.y as int, state.bound as int),
            2 + quantize_spec(sample.x as int, state.bound as int),
        )),
{
    let bound = state.bound();
    let col_offset = quantize(sample.x, bound);
    let row_offset = -quantize(sample.y, bound);
    if sample.z < 0 {
        let bubble = (col_offset, row_offset);
        let mut leds = empty_frame();
        move_bubble(&bubble, &mut leds);
        DisplayCommand::Show { frame: leds, duration_ms: FRAME_MS }
    } else {
        DisplayCommand::Clear
    }
}

} // verus!
