//! Frames in the packed three-bytes-per-pixel layout, and the command that
//! assembles a sequence of stored frames into a video.

pub mod ffmpeg_exporter;

use self::ffmpeg_exporter::{ffmpeg_arguments, ffmpeg_program, invoke_ffmpeg_cli, FfmpegCommand};
use crate::resources::resource_folder::{ResourceError, ResourceFolder};
use vstd::prelude::*;
use vstd::string::StringExecFns;

verus! {

/// Why a frame or a video could not be made.
#[derive(Debug, Clone)]
pub enum EncodingError {
    /// The buffer does not hold `width * height * 3` bytes.
    InvalidLength,
    /// The image library refused the buffer.
    InvalidBufferData,
    /// The encoding process could not be run; the message is the system's.
    FailedToRenderVideo(String),
    /// The folder of frames cannot be used; the message is the folder's error.
    InvalidSourceData(String),
}

impl EncodingError {
    /// The printed form of the error: its name, and the quoted message in
    /// parentheses where it has one.
    pub open spec fn text(&self) -> Seq<char> {
        match self {
            EncodingError::InvalidLength => "InvalidLength"@,
            EncodingError::InvalidBufferData => "InvalidBufferData"@,
            EncodingError::FailedToRenderVideo(m) => "FailedToRenderVideo"@ + "("@
                + crate::text::debug_text(m@) + ")"@,
            EncodingError::InvalidSourceData(m) => "InvalidSourceData"@ + "("@
                + crate::text::debug_text(m@) + ")"@,
        }
    }

    /// Prints the error.
    pub fn to_text(&self) -> (r: String)
        ensures
            r@ == self.text(),
    {
        match self {
            EncodingError::InvalidLength => String::from_str("InvalidLength"),
            EncodingError::InvalidBufferData => String::from_str("InvalidBufferData"),
            EncodingError::FailedToRenderVideo(m) => crate::text::labelled(
                "FailedToRenderVideo",
                m.as_str(),
            ),
            EncodingError::InvalidSourceData(m) => crate::text::labelled(
                "InvalidSourceData",
                m.as_str(),
            ),
        }
    }

    /// The encoding error that stands for a folder's error.
    pub fn from_resource(err: &ResourceError) -> (r: EncodingError)
        ensures
            r matches EncodingError::InvalidSourceData(m) && m@ == err.text(),
    {
        EncodingError::InvalidSourceData(err.to_text())
    }
}

/// The number of bytes of a packed image: three for each pixel.
pub open spec fn packed_len(width: u32, height: u32) -> int {
    width as int * height as int * 3
}

/// A picture in the packed layout, on bytes that belong to somebody else.
#[derive(Debug, Clone, Copy)]
pub struct Frame<'a> {
    width: u32,
    height: u32,
    data: &'a [u8],
}

impl<'a> Frame<'a> {
    #[verifier::type_invariant]
    spec fn exact(self) -> bool {
        self.data@.len() == packed_len(self.width, self.height)
    }

    /// The width in pixels.
    pub closed spec fn spec_width(&self) -> u32 {
        self.width
    }

    /// The height in pixels.
    pub closed spec fn spec_height(&self) -> u32 {
        self.height
    }

    /// The bytes of the picture, row by row, three per pixel.
    pub closed spec fn bytes(&self) -> Seq<u8> {
        self.data@
    }

    /// The width in pixels.
    pub fn width(&self) -> (r: u32)
        ensures
            r == self.spec_width(),
    {
        self.width
    }

    /// The height in pixels.
    pub fn height(&self) -> (r: u32)
        ensures
            r == self.spec_height(),
    {
        self.height
    }

    /// The bytes of the picture: exactly three for each pixel.
    pub fn as_raw(&self) -> (r: &'a [u8])
        ensures
            r@ == self.bytes(),
            r@.len() == packed_len(self.spec_width(), self.spec_height()),
    {
        proof {
            use_type_invariant(self);
        }
        self.data
    }
}

/// Whether the image library takes a buffer for a picture of the given size, by
/// `image::ImageBuffer::from_raw` for three-channel pixels of one byte each.
/// Trusted: the library's source takes the buffer exactly when three times
/// width times height, computed without overflow, is at most its length.
#[verifier::external_body]
fn raw_buffer_fits(width: u32, height: u32, bytes: &[u8]) -> (r: bool)
    ensures
        r == (packed_len(width, height) <= bytes@.len()),
{
    image::ImageBuffer::<image::Rgb<u8>, &[u8]>::from_raw(width, height, bytes).is_some()
}

/// Makes frames and export commands.
#[derive(Debug, Clone, Copy)]
pub struct Encoding {}

impl Default for Encoding {
    fn default() -> Self {
        Encoding {  }
    }
}

impl Encoding {
    /// An encoder.
    pub fn new() -> Encoding {
        Encoding {  }
    }

    /// The frame of the given size on `bytes`. The buffer must hold exactly
    /// `width * height * 3` bytes; any other length is refused with
    /// `InvalidLength`.
    pub fn frame_from_slice<'a>(&self, bytes: &'a [u8], width: u32, height: u32) -> (r: Result<
        Frame<'a>,
        EncodingError,
    >)
        ensures
            bytes@.len() == packed_len(width, height) ==> (r matches Ok(frame)
                && frame.spec_width() == width && frame.spec_height() == height && frame.bytes()
                == bytes@),
            bytes@.len() != packed_len(width, height) ==> r matches Err(
                EncodingError::InvalidLength,
            ),
    {
        assert(width as int * height as int * 3 <= 0xffff_ffff * 0xffff_ffff * 3)
            by (nonlinear_arith)
            requires
                width <= 0xffff_ffff,
                height <= 0xffff_ffff,
        ;
        let wanted: u128 = (width as u128) * (height as u128) * 3;
        if bytes.len() as u128 != wanted {
            return Err(EncodingError::InvalidLength);
        }
        if !raw_buffer_fits(width, height, bytes) {
            return Err(EncodingError::InvalidBufferData);
        }
        Ok(Frame { width, height, data: bytes })
    }

    /// The command that assembles the frames in `folder` that match the glob
    /// `pattern` into the video `output` at `framerate` frames per second.
    /// Fails with `InvalidSourceData` where the folder was not required first.
    pub fn export_webm(
        &self,
        folder: &ResourceFolder,
        pattern: &str,
        output: &str,
        framerate: u32,
        windows: bool,
    ) -> (r: Result<FfmpegCommand, EncodingError>)
        ensures
            folder.is_ready() ==> (r matches Ok(command) && command.program@ == ffmpeg_program(
                windows,
            ) && command.arguments() == ffmpeg_arguments(pattern@, output@, framerate)
                && command.current_dir@ == folder.location()),
            !folder.is_ready() ==> (r matches Err(EncodingError::InvalidSourceData(m)) && m@
                == "NotReady"@),
    {
        match folder.basepath() {
            Err(err) => Err(EncodingError::from_resource(&err)),
            Ok(base) => Ok(invoke_ffmpeg_cli(base.as_str(), pattern, output, framerate, windows)),
        }
    }
}

} // verus!
