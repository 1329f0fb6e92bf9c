//! What becomes of the pixels of a frame.
use crate::capture::SHOT_INTERVAL;
use crate::frame::{
    bgra_swapped, has_whole_pixels, is_countable, is_picture, LatestFrame, VideoFormat,
};
use crate::park::{park_turn, ParkTurn};
use vstd::prelude::*;

verus! {

/// In every pixel the first byte and the third one change places, and the others stay. The last pixel
/// may lack its fourth byte.
pub proof fn every_pixel_has_its_first_and_third_byte_exchanged(data: Seq<u8>, p: int)
    requires
        0 <= p,
        4 * p + 2 < data.len(),
    ensures
        bgra_swapped(data).len() == data.len(),
        bgra_swapped(data)[4 * p] == data[4 * p + 2],
        bgra_swapped(data)[4 * p + 1] == data[4 * p + 1],
        bgra_swapped(data)[4 * p + 2] == data[4 * p],
        4 * p + 3 < data.len() ==> bgra_swapped(data)[4 * p + 3] == data[4 * p + 3],
{
}

/// Data can be exchanged pixel by pixel exactly if every pixel that has a first byte has a third one.
pub proof fn whole_pixels_have_a_third_byte(data: Seq<u8>)
    ensures
        has_whole_pixels(data) <==> (forall|p: int|
            #![trigger data[4 * p]]
            0 <= p && 4 * p < data.len() ==> 4 * p + 2 < data.len()),
{
    let p = data.len() as int / 4;
    if data.len() % 4 == 1 || data.len() % 4 == 2 {
        let first = data[4 * p];
        assert(4 * p < data.len() && !(4 * p + 2 < data.len()));
    }
}

/// In the picture of a frame with blue first, the red of each pixel is the byte that was third, and
/// its blue the one that was first; in that of any other frame each byte stays where it was.
pub proof fn a_picture_has_the_colors_of_its_frame(frame: LatestFrame, p: int, i: int)
    requires
        0 <= p,
        4 * p + 3 < frame.data@.len(),
        0 <= i < frame.data@.len(),
    ensures
        frame.rgba().len() == frame.data@.len(),
        frame.info.format == VideoFormat::BGRA ==> {
            &&& frame.rgba()[4 * p] == frame.data@[4 * p + 2]
            &&& frame.rgba()[4 * p + 1] == frame.data@[4 * p + 1]
            &&& frame.rgba()[4 * p + 2] == frame.data@[4 * p]
            &&& frame.rgba()[4 * p + 3] == frame.data@[4 * p + 3]
        },
        frame.info.format != VideoFormat::BGRA ==> frame.rgba()[i] == frame.data@[i],
{
}

/// A picture has two sides and four bytes for each pixel, and nothing else is asked of it.
pub proof fn a_picture_has_four_bytes_for_each_pixel(width: u32, height: u32, rgba: Seq<u8>)
    ensures
        is_picture(width, height, rgba) <==> width != 0 && height != 0 && rgba.len() == 4 * width
            * height,
        is_countable(width, height) <==> 4 * width + 1 <= 0xffff_ffff && (4 * width + 1) * height
            <= usize::MAX,
{
}

/// A frame can be looked at if its sides can be counted and, where blue comes first, no pixel is cut
/// off before its third byte.
pub proof fn a_frame_is_sound_unless_it_is_cut_off_or_too_large(frame: LatestFrame)
    ensures
        frame.is_sound() <==> {
            &&& frame.info.format == VideoFormat::BGRA ==> frame.data@.len() % 4 != 1
                && frame.data@.len() % 4 != 2
            &&& 4 * frame.info.width + 1 <= 0xffff_ffff
            &&& (4 * frame.info.width + 1) * frame.info.height <= usize::MAX
        },
{
}

/// A thread that is woken up stops sleeping if the capture is over, and otherwise if the time has
/// passed; if neither, it sleeps on for exactly the rest.
pub proof fn a_woken_thread_sleeps_for_the_rest(timeout: u128, quit: bool, elapsed: u128)
    ensures
        park_turn(timeout, quit, elapsed) is Quit <==> quit,
        park_turn(timeout, quit, elapsed) is TimedOut <==> !quit && timeout <= elapsed,
        park_turn(timeout, quit, elapsed) matches ParkTurn::Park(left) ==> left + elapsed == timeout,
{
}

/// Five seconds lie between one screenshot and the next.
pub proof fn screenshots_are_five_seconds_apart()
    ensures
        SHOT_INTERVAL == 5_000_000_000,
{
}

} // verus!
