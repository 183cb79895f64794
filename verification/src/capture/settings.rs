//! What a capture session is opened with.

use crate::text::{decimal_text, decimal_u128};
use vstd::prelude::*;
use vstd::string::StringExecFns;

verus! {

/// The fixed parameters of a capture session.
pub struct CaptureSettings {
    /// Name of the input backend of the decoding library.
    pub backend: String,
    /// Device identifier, as the backend understands it.
    pub device: String,
    /// Frames per second asked of the device.
    pub framerate: u32,
    /// Width and height in pixels.
    pub resolution: (u32, u32),
    /// Native pixel format asked of the device.
    pub pixel_format: String,
}

impl CaptureSettings {
    /// The resolution in the form `WIDTHxHEIGHT`.
    pub open spec fn resolution_text(&self) -> Seq<char> {
        decimal_text(self.resolution.0 as int) + seq!['x'] + decimal_text(self.resolution.1 as int)
    }

    /// The number of bytes of one packed frame: three per pixel.
    pub open spec fn frame_bytes(&self) -> int {
        self.resolution.0 as int * self.resolution.1 as int * 3
    }

    /// Writes the resolution as `WIDTHxHEIGHT`.
    pub fn resolution_as_string(&self) -> (r: String)
        ensures
            r@ == self.resolution_text(),
    {
        let mut text = decimal_u128(self.resolution.0 as u128);
        text.append("x");
        text.append(decimal_u128(self.resolution.1 as u128).as_str());
        proof {
            reveal_strlit("x");
            assert("x"@ =~= seq!['x']);
        }
        text
    }

    /// The options handed to the device when it is opened, in the order in
    /// which they are set: frame rate, pixel format, video size.
    pub fn device_options(&self) -> (r: Vec<(String, String)>)
        ensures
            r@.len() == 3,
            r@[0].0@ == "framerate"@,
            r@[0].1@ == decimal_text(self.framerate as int),
            r@[1].0@ == "pixel_format"@,
            r@[1].1@ == self.pixel_format@,
            r@[2].0@ == "video_size"@,
            r@[2].1@ == self.resolution_text(),
    {
        let mut options: Vec<(String, String)> = Vec::new();
        options.push((String::from_str("framerate"), decimal_u128(self.framerate as u128)));
        options.push((String::from_str("pixel_format"), self.pixel_format.clone()));
        options.push((String::from_str("video_size"), self.resolution_as_string()));
        options
    }
}

} // verus!
