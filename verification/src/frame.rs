//! Frame composition: a 5x5 binary frame that is either blank or has
//! exactly one lit cell, plus the decoder that reads the lit cell back.

use vstd::prelude::*;

verus! {

/// Every cell of the frame is 0.
pub open spec fn frame_blank(f: [[u8; 5]; 5]) -> bool {
    forall|r: int, c: int| 0 <= r < 5 && 0 <= c < 5 ==> f@[r]@[c] == 0
}

/// Exactly the cell at (row, col) is 1 and every other cell is 0.
pub open spec fn frame_single_lit(f: [[u8; 5]; 5], row: int, col: int) -> bool {
    &&& 0 <= row < 5
    &&& 0 <= col < 5
    &&& forall|r: int, c: int|
        0 <= r < 5 && 0 <= c < 5 ==> f@[r]@[c] == (if r == row && c == col {
            1u8
        } else {
            0u8
        })
}

/// The frame invariant: all cells dark, or a single lit cell.
pub open spec fn frame_wf(f: [[u8; 5]; 5]) -> bool {
    ||| frame_blank(f)
    ||| exists|row: int, col: int| frame_single_lit(f, row, col)
}

/// The offsets a frame decodes to: the lit cell's coordinates shifted back
/// to (col_offset, row_offset), or nothing for a blank frame.
pub open spec fn frame_offsets(f: [[u8; 5]; 5]) -> Option<(int, int)> {
    if exists|r: int, c: int| 0 <= r < 5 && 0 <= c < 5 && f@[r]@[c] != 0 {
        let rc = choose|r: int, c: int| 0 <= r < 5 && 0 <= c < 5 && f@[r]@[c] != 0;
        Some((rc.1 - 2, rc.0 - 2))
    } else {
        None
    }
}

/// Builds the all-dark frame.
pub fn empty_frame() -> (f: [[u8; 5]; 5])
    ensures
        frame_blank(f),
        frame_wf(f),
{
    [
        [0u8, 0u8, 0u8, 0u8, 0u8],
        [0u8, 0u8, 0u8, 0u8, 0u8],
        [0u8, 0u8, 0u8, 0u8, 0u8],
        [0u8, 0u8, 0u8, 0u8, 0u8],
        [0u8, 0u8, 0u8, 0u8, 0u8],
    ]
}

/// Lights the single cell for the bubble's (col_offset, row_offset) pair,
/// blanking everything else. The offsets come from the quantizer, so they
/// lie in [-2, 2] and the shifted indices stay on the matrix.
pub fn move_bubble(bubble: &(isize, isize), leds: &mut [[u8; 5]; 5])
    requires
        -2 <= bubble.0 <= 2,
        -2 <= bubble.1 <= 2,
    ensures
        frame_single_lit(*final(leds), bubble.1 + 2, bubble.0 + 2),
        frame_wf(*final(leds)),
{
    let x = (bubble.0 + 2) as usize;
    let y = (bubble.1 + 2) as usize;
    *leds = empty_frame();
    leds[y][x] = 1;
}

/// Reads a well-formed frame back: `None` for the blank frame, otherwise
/// the (col_offset, row_offset) pair whose cell is lit.
pub fn decode_frame(leds: &[[u8; 5]; 5]) -> (r: Option<(isize, isize)>)
    requires
        frame_wf(*leds),
    ensures
        r is None <==> frame_blank(*leds),
        forall|row: int, col: int|
            frame_single_lit(*leds, row, col) ==> r == Some(
                ((col - 2) as isize, (row - 2) as isize),
            ),
{
    let mut y: usize = 0;
    while y < 5
        invariant
            y <= 5,
            frame_wf(*leds),
            forall|r: int, c: int| 0 <= r < y && 0 <= c < 5 ==> leds@[r]@[c] == 0,
        decreases 5 - y,
    {
        let mut x: usize = 0;
        while x < 5
            invariant
                y < 5,
                x <= 5,
                frame_wf(*leds),
                forall|r: int, c: int| 0 <= r < y && 0 <= c < 5 ==> leds@[r]@[c] == 0,
                forall|c: int| 0 <= c < x ==> leds@[y as int]@[c] == 0,
            decreases 5 - x,
        {
            if leds[y][x] != 0 {
                return Some((x as isize - 2, y as isize - 2));
            }
            x = x + 1;
        }
        y = y + 1;
    }
    proof {
        assert(frame_blank(*leds));
        assert forall|row: int, col: int| !frame_single_lit(*leds, row, col) by {
            if frame_single_lit(*leds, row, col) {
                assert(leds@[row]@[col] == 1u8);
                assert(leds@[row]@[col] == 0u8);
            }
        }
    }
    None
}

/// Round trip: a frame composed for offsets (col_offset, row_offset)
/// decodes back to exactly those offsets.
pub proof fn lemma_frame_round_trip(f: [[u8; 5]; 5], col_offset: int, row_offset: int)
    requires
        -2 <= col_offset <= 2,
        -2 <= row_offset <= 2,
        frame_single_lit(f, row_offset + 2, col_offset + 2),
    ensures
        frame_offsets(f) == Some((col_offset, row_offset)),
{
    assert(f@[row_offset + 2]@[col_offset + 2] != 0);
    let rc = choose|r: int, c: int| 0 <= r < 5 && 0 <= c < 5 && f@[r]@[c] != 0;
    assert(rc.0 == row_offset + 2 && rc.1 == col_offset + 2);
}

} // verus!
