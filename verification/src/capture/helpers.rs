//! Helpers around a capture session.

use crate::encoding::{packed_len, Encoding, Frame};
use vstd::prelude::*;

verus! {

/// The picture of the given size on a byte buffer; nothing unless the buffer
/// holds exactly three bytes for each pixel.
pub fn as_rgb_image<'a>(bytes: &'a [u8], width: u32, height: u32) -> (r: Option<Frame<'a>>)
    ensures
        bytes@.len() == packed_len(width, height) ==> (r matches Some(frame)
            && frame.spec_width() == width && frame.spec_height() == height && frame.bytes()
            == bytes@),
        bytes@.len() != packed_len(width, height) ==> r is None,
{
    match Encoding::new().frame_from_slice(bytes, width, height) {
        Ok(frame) => Some(frame),
        Err(_) => None,
    }
}

} // verus!
