//! The capture session's state and its step function.

use super::error::{native_message, native_text, CaptureError, CaptureFault};
use super::settings::CaptureSettings;
use crate::text::{decimal_i128, decimal_text};
use vstd::prelude::*;
use vstd::string::StringExecFns;

verus! {

/// What is known of one native handle.
#[derive(Debug, Clone, Copy, PartialEq, Eq, Structural)]
pub enum Handle {
    /// Nothing was ever stored, or it has been released.
    Absent,
    /// The allocation was made and gave a null handle.
    Null,
    /// A usable handle is held and must be released.
    Live,
}

/// The native objects that a session owns and must release.
#[derive(Debug, Clone, Copy, PartialEq, Eq, Structural)]
pub enum Resource {
    /// The opened decoder.
    CodecContext,
    /// The scratch frame of the pixel conversion, allocated with its own buffer.
    TranscodeFrame,
    /// The frame that the decoder fills.
    Frame,
    /// The packet that the device fills.
    Packet,
    /// The format context of the opened device.
    Context,
}

/// One call into the decoding library, made by the driver on the session's behalf.
#[derive(Debug, Clone, Copy, PartialEq, Eq, Structural)]
pub enum NativeCall {
    /// Allocate the format context.
    AllocContext,
    /// Look up the input backend named in the settings.
    FindInputFormat,
    /// Open the device with the options of the settings.
    OpenInput,
    /// Probe the streams of the opened device.
    FindStreamInfo,
    /// Report, for each stream in order, whether it carries video.
    ListStreams,
    /// Look up the decoder of the selected stream.
    FindDecoder,
    /// Open the decoder of the selected stream.
    OpenDecoder,
    /// Allocate the packet.
    AllocPacket,
    /// Allocate the frame that the decoder fills.
    AllocFrame,
    /// Read the next packet from the device.
    ReadPacket,
    /// Decode the packet just read.
    DecodePacket,
    /// Drop the payload of a packet that gave no picture.
    DiscardPacket,
    /// Allocate the scratch frame for the decoded geometry.
    AllocScratch,
    /// Convert the decoded frame into the scratch frame and report the size of
    /// the packed image.
    ConvertFrame,
    /// Copy the converted image out as packed bytes.
    CopyToBuffer,
    /// Drop the payload of the packet whose picture was delivered.
    ReleasePacket,
}

/// What the driver reports of the call it was asked to make.
pub enum NativeReply {
    /// Answers an allocation: whether a usable handle came back.
    Allocated { live: bool },
    /// Answers a lookup: whether it found anything, and the name of what was looked for.
    Lookup { found: bool, subject: String },
    /// Answers `OpenInput`, `FindStreamInfo` and `OpenDecoder`: the code
    /// returned and the library's description of it, if it has one.
    Status { code: i32, detail: Option<String> },
    /// Answers `ListStreams`.
    Streams { video: Vec<bool> },
    /// Answers `ReadPacket`: the code returned, the code by which the library
    /// says on this platform that no data is ready yet, and the stream of the
    /// packet.
    Packet { code: i32, try_again: i32, detail: Option<String>, stream_index: i32 },
    /// Answers `DecodePacket`.
    Picture { code: i32, detail: Option<String>, got_picture: bool },
    /// Answers `ConvertFrame`: the byte size of the packed image.
    Converted { required_size: i32 },
    /// Answers `CopyToBuffer`: the code returned and the bytes copied out.
    Copied { code: i32, detail: Option<String>, data: Vec<u8> },
    /// Answers `DiscardPacket` and `ReleasePacket`.
    Done,
    /// Answers `FindInputFormat` and `OpenInput` where the call could not be
    /// made, because a text of the settings cannot be handed to the library:
    /// the reason.
    Refused { detail: String },
}

/// Where a session stands in its life.
#[derive(Debug, Clone, Copy, PartialEq, Eq, Structural)]
pub enum Phase {
    /// Nothing has been opened.
    Created,
    /// The open sequence is under way; a call is outstanding.
    Opening,
    /// The device is open and no read is under way.
    Ready,
    /// A read is under way; a call is outstanding.
    Reading,
    /// Opening failed; everything acquired on the way was handed back.
    Failed,
}

/// What a session answers to its driver.
pub enum Progress {
    /// Make this call and report back.
    Call(NativeCall),
    /// The device is open.
    Opened,
    /// One frame was read: its packed bytes.
    Filled(Vec<u8>),
    /// The operation failed. The driver releases `release`, in this order.
    Failed { error: CaptureError, release: Vec<Resource> },
}

/// The mathematical content of a [`Progress`].
pub enum Outcome {
    Call(NativeCall),
    Opened,
    Filled(Seq<u8>),
    Failed { kind: CaptureFault, message: Seq<char>, release: Seq<Resource> },
}

impl View for Progress {
    type V = Outcome;

    open spec fn view(&self) -> Outcome {
        match self {
            Progress::Call(c) => Outcome::Call(*c),
            Progress::Opened => Outcome::Opened,
            Progress::Filled(data) => Outcome::Filled(data@),
            Progress::Failed { error, release } => Outcome::Failed {
                kind: error.kind(),
                message: error.message(),
                release: release@,
            },
        }
    }
}

/// The mathematical content of a [`Capture`], settings aside.
pub struct CaptureState {
    pub context: Handle,
    pub input: Handle,
    pub packet: Handle,
    pub frame: Handle,
    pub transcode_frame: Handle,
    pub codec_context: Handle,
    /// Index of the selected video stream.
    pub videoindex: i32,
    pub phase: Phase,
    /// The call outstanding while opening or reading.
    pub pending: NativeCall,
    /// Length of the destination of the read under way.
    pub target_len: usize,
    /// Bytes copied out by the read under way.
    pub filled: Seq<u8>,
}

/// The handle stored by an allocation.
pub open spec fn stored(live: bool) -> Handle {
    if live {
        Handle::Live
    } else {
        Handle::Null
    }
}

/// The resource, if the handle is live, else nothing.
pub open spec fn owed(handle: Handle, resource: Resource) -> Seq<Resource> {
    if handle == Handle::Live {
        seq![resource]
    } else {
        Seq::empty()
    }
}

/// The index of the last stream that carries video, among those whose index
/// fits an `i32`.
pub open spec fn last_video(video: Seq<bool>) -> Option<i32>
    decreases video.len(),
{
    if video.len() == 0 {
        None
    } else if video.last() && video.len() - 1 <= i32::MAX {
        Some((video.len() - 1) as i32)
    } else {
        last_video(video.drop_last())
    }
}

/// `last_video` gives a video stream after which no video stream follows, and
/// nothing exactly when no stream carries video.
pub proof fn lemma_last_video(video: Seq<bool>)
    ensures
        match last_video(video) {
            Some(i) => 0 <= i < video.len() && video[i as int] && forall|j: int|
                i < j < video.len() && j <= i32::MAX ==> !video[j],
            None => forall|j: int| 0 <= j < video.len() && j <= i32::MAX ==> !video[j],
        },
    decreases video.len(),
{
    if video.len() > 0 && !(video.last() && video.len() - 1 <= i32::MAX) {
        let front = video.drop_last();
        lemma_last_video(front);
        assert(forall|j: int| 0 <= j < front.len() ==> front[j] == video[j]);
    }
}

/// Whether a code returned by a read only means that no data is ready yet:
/// whether it is the library's code for trying again.
pub open spec fn transient(code: i32, try_again: i32) -> bool {
    code < 0 && code == try_again
}

/// The message of a size mismatch between the packed image and the destination.
pub open spec fn size_message(required: int, actual: int) -> Seq<char> {
    "required size "@ + decimal_text(required) + " != data size "@ + decimal_text(actual)
}

/// The message of a failed decoder lookup.
pub open spec fn codec_message(subject: Seq<char>) -> Seq<char> {
    "No codec matching "@ + subject + " found. avcodec_find_decoder failed"@
}

impl CaptureState {
    /// A session that has opened nothing.
    pub open spec fn created() -> CaptureState {
        CaptureState {
            context: Handle::Absent,
            input: Handle::Absent,
            packet: Handle::Absent,
            frame: Handle::Absent,
            transcode_frame: Handle::Absent,
            codec_context: Handle::Absent,
            videoindex: 0,
            phase: Phase::Created,
            pending: NativeCall::AllocContext,
            target_len: 0,
            filled: Seq::empty(),
        }
    }

    /// What is known of the handle of a resource.
    pub open spec fn handle(self, resource: Resource) -> Handle {
        match resource {
            Resource::CodecContext => self.codec_context,
            Resource::TranscodeFrame => self.transcode_frame,
            Resource::Frame => self.frame,
            Resource::Packet => self.packet,
            Resource::Context => self.context,
        }
    }

    /// Whether no resource is held.
    pub open spec fn holds_nothing(self) -> bool {
        forall|r: Resource| self.handle(r) != Handle::Live
    }

    /// The resources held, in the order in which they are released: the
    /// decoder before the format context that it belongs to, the scratch frame
    /// with its own buffer before the plain frame, the packet in between.
    pub open spec fn release_order(self) -> Seq<Resource> {
        owed(self.codec_context, Resource::CodecContext) + owed(
            self.transcode_frame,
            Resource::TranscodeFrame,
        ) + owed(self.frame, Resource::Frame) + owed(self.packet, Resource::Packet) + owed(
            self.context,
            Resource::Context,
        )
    }

    /// The state after every handle has been given up.
    pub open spec fn released(self, phase: Phase) -> CaptureState {
        CaptureState {
            context: Handle::Absent,
            input: Handle::Absent,
            packet: Handle::Absent,
            frame: Handle::Absent,
            transcode_frame: Handle::Absent,
            codec_context: Handle::Absent,
            phase,
            filled: Seq::empty(),
            ..self
        }
    }

    /// Opening fails: every live handle is handed out for release.
    pub open spec fn fail_open(self, kind: CaptureFault, message: Seq<char>) -> (
        CaptureState,
        Outcome,
    ) {
        (
            self.released(Phase::Failed),
            Outcome::Failed { kind, message, release: self.release_order() },
        )
    }

    /// A read fails: the session keeps what it holds and is ready again.
    pub open spec fn fail_read(self, kind: CaptureFault, message: Seq<char>) -> (
        CaptureState,
        Outcome,
    ) {
        (
            CaptureState { phase: Phase::Ready, filled: Seq::empty(), ..self },
            Outcome::Failed { kind, message, release: Seq::empty() },
        )
    }

    /// The session asks for a call.
    pub open spec fn ask(self, call: NativeCall) -> (CaptureState, Outcome) {
        (CaptureState { pending: call, ..self }, Outcome::Call(call))
    }

    /// The first handle that a read needs and that is not usable, by name; the
    /// handles are looked at in the order context, packet, decoder, frame.
    pub open spec fn missing_handle(self) -> Option<Seq<char>> {
        if self.context != Handle::Live {
            Some("Invalid context"@)
        } else if self.packet != Handle::Live {
            Some("Invalid packet"@)
        } else if self.codec_context != Handle::Live {
            Some("Invalid codec_context"@)
        } else if self.frame != Handle::Live {
            Some("Invalid frame"@)
        } else {
            None
        }
    }

    /// The start of the open sequence.
    pub open spec fn init(self) -> (CaptureState, Outcome) {
        if self.phase == Phase::Created {
            CaptureState { phase: Phase::Opening, ..self }.ask(NativeCall::AllocContext)
        } else {
            (
                self,
                Outcome::Failed {
                    kind: CaptureFault::NotReady,
                    message: Seq::empty(),
                    release: Seq::empty(),
                },
            )
        }
    }

    /// The start of a read into a destination of `len` bytes.
    pub open spec fn read(self, len: usize) -> (CaptureState, Outcome) {
        if self.phase != Phase::Ready {
            (
                self,
                Outcome::Failed {
                    kind: CaptureFault::NotReady,
                    message: Seq::empty(),
                    release: Seq::empty(),
                },
            )
        } else {
            match self.missing_handle() {
                Some(name) => self.fail_read(CaptureFault::NullPointer, name),
                None => CaptureState {
                    phase: Phase::Reading,
                    target_len: len,
                    filled: Seq::empty(),
                    ..self
                }.ask(NativeCall::ReadPacket),
            }
        }
    }

    /// One step of the open sequence: the state and the answer after `reply`
    /// to the outstanding call. A reply that does not answer that call changes
    /// nothing, and the call is asked for again.
    pub open spec fn open_step(self, reply: NativeReply) -> (CaptureState, Outcome) {
        match (self.pending, reply) {
            (NativeCall::AllocContext, NativeReply::Allocated { live }) => CaptureState {
                context: stored(live),
                ..self
            }.ask(NativeCall::FindInputFormat),
            (NativeCall::FindInputFormat, NativeReply::Lookup { found, subject }) => if !found {
                self.fail_open(CaptureFault::InvalidDriver, Seq::empty())
            } else if self.context != Handle::Live {
                CaptureState { input: Handle::Live, ..self }.fail_open(
                    CaptureFault::NullPointer,
                    "Invalid context"@,
                )
            } else {
                CaptureState { input: Handle::Live, ..self }.ask(NativeCall::OpenInput)
            },
            (NativeCall::FindInputFormat, NativeReply::Refused { detail }) => self.fail_open(
                CaptureFault::NullPointer,
                detail@,
            ),
            (NativeCall::OpenInput, NativeReply::Refused { detail }) => self.fail_open(
                CaptureFault::NullPointer,
                detail@,
            ),
            (NativeCall::OpenInput, NativeReply::Status { code, detail }) => if code != 0 {
                CaptureState { context: Handle::Absent, ..self }.fail_open(
                    CaptureFault::NativeError,
                    native_message("avformat_open_input failed"@, code, detail),
                )
            } else {
                self.ask(NativeCall::FindStreamInfo)
            },
            (NativeCall::FindStreamInfo, NativeReply::Status { code, detail }) => if code < 0 {
                self.fail_open(
                    CaptureFault::NativeError,
                    native_message("avformat_find_stream_info failed"@, code, detail),
                )
            } else {
                self.ask(NativeCall::ListStreams)
            },
            (NativeCall::ListStreams, NativeReply::Streams { video }) => match last_video(video@) {
                None => self.fail_open(
                    CaptureFault::MissingStream,
                    "No video streams found in device"@,
                ),
                Some(index) => CaptureState { videoindex: index, ..self }.ask(
                    NativeCall::FindDecoder,
                ),
            },
            (NativeCall::FindDecoder, NativeReply::Lookup { found, subject }) => if !found {
                self.fail_open(CaptureFault::MissingCodec, codec_message(subject@))
            } else {
                self.ask(NativeCall::OpenDecoder)
            },
            (NativeCall::OpenDecoder, NativeReply::Status { code, detail }) => if code < 0 {
                self.fail_open(
                    CaptureFault::NativeError,
                    native_message("avcodec_open2 failed"@, code, detail),
                )
            } else {
                CaptureState { codec_context: Handle::Live, ..self }.ask(NativeCall::AllocPacket)
            },
            (NativeCall::AllocPacket, NativeReply::Allocated { live }) => CaptureState {
                packet: stored(live),
                ..self
            }.ask(NativeCall::AllocFrame),
            (NativeCall::AllocFrame, NativeReply::Allocated { live }) => (
                CaptureState { frame: stored(live), phase: Phase::Ready, ..self },
                Outcome::Opened,
            ),
            _ => (self, Outcome::Call(self.pending)),
        }
    }

    /// One step of a read: the state and the answer after `reply` to the
    /// outstanding call. A reply that does not answer that call changes
    /// nothing, and the call is asked for again.
    pub open spec fn read_step(self, reply: NativeReply) -> (CaptureState, Outcome) {
        match (self.pending, reply) {
            (
                NativeCall::ReadPacket,
                NativeReply::Packet { code, try_again, detail, stream_index },
            ) => if code < 0 {
                if transient(code, try_again) {
                    self.ask(NativeCall::ReadPacket)
                } else {
                    self.fail_read(
                        CaptureFault::DeviceLost,
                        native_message("av_read_frame failed"@, code, detail),
                    )
                }
            } else if stream_index != self.videoindex {
                self.ask(NativeCall::ReadPacket)
            } else {
                self.ask(NativeCall::DecodePacket)
            },
            (NativeCall::DecodePacket, NativeReply::Picture { code, detail, got_picture }) => if code
                < 0 {
                self.fail_read(
                    CaptureFault::NativeError,
                    native_message("avcodec_decode_video2 failed"@, code, detail),
                )
            } else if !got_picture {
                self.ask(NativeCall::DiscardPacket)
            } else if self.transcode_frame == Handle::Live {
                self.ask(NativeCall::ConvertFrame)
            } else {
                self.ask(NativeCall::AllocScratch)
            },
            (NativeCall::DiscardPacket, NativeReply::Done) => self.ask(NativeCall::ReadPacket),
            (NativeCall::AllocScratch, NativeReply::Allocated { live }) => if live {
                CaptureState { transcode_frame: Handle::Live, ..self }.ask(NativeCall::ConvertFrame)
            } else {
                self.fail_read(CaptureFault::NullPointer, "Invalid transcode frame"@)
            },
            (NativeCall::ConvertFrame, NativeReply::Converted { required_size }) => if required_size
                as int != self.target_len as int {
                self.fail_read(
                    CaptureFault::InvalidBuffer,
                    size_message(required_size as int, self.target_len as int),
                )
            } else {
                self.ask(NativeCall::CopyToBuffer)
            },
            (NativeCall::CopyToBuffer, NativeReply::Copied { code, detail, data }) => if code < 0 {
                self.fail_read(
                    CaptureFault::NativeError,
                    native_message("av_image_copy_to_buffer failed"@, code, detail),
                )
            } else if data@.len() != self.target_len {
                self.fail_read(
                    CaptureFault::InvalidBuffer,
                    size_message(self.target_len as int, data@.len() as int),
                )
            } else {
                CaptureState { filled: data@, ..self }.ask(NativeCall::ReleasePacket)
            },
            (NativeCall::ReleasePacket, NativeReply::Done) => (
                CaptureState { phase: Phase::Ready, filled: Seq::empty(), ..self },
                Outcome::Filled(self.filled),
            ),
            _ => (self, Outcome::Call(self.pending)),
        }
    }

    /// The state and the answer after `reply`: a step of the open sequence or
    /// of the read under way, and `NotReady` where no call is outstanding.
    pub open spec fn step(self, reply: NativeReply) -> (CaptureState, Outcome) {
        match self.phase {
            Phase::Opening => self.open_step(reply),
            Phase::Reading => self.read_step(reply),
            _ => (
                self,
                Outcome::Failed {
                    kind: CaptureFault::NotReady,
                    message: Seq::empty(),
                    release: Seq::empty(),
                },
            ),
        }
    }
}

/// A capture session on one device.
pub struct Capture {
    settings: CaptureSettings,
    context: Handle,
    input: Handle,
    packet: Handle,
    frame: Handle,
    transcode_frame: Handle,
    codec_context: Handle,
    videoindex: i32,
    phase: Phase,
    pending: NativeCall,
    target_len: usize,
    filled: Vec<u8>,
}

impl View for Capture {
    type V = CaptureState;

    closed spec fn view(&self) -> CaptureState {
        CaptureState {
            context: self.context,
            input: self.input,
            packet: self.packet,
            frame: self.frame,
            transcode_frame: self.transcode_frame,
            codec_context: self.codec_context,
            videoindex: self.videoindex,
            phase: self.phase,
            pending: self.pending,
            target_len: self.target_len,
            filled: self.filled@,
        }
    }
}

/// Whether a code returned by a read only means that no data is ready yet,
/// given the library's code for trying again on this platform.
pub fn is_transient(code: i32, try_again: i32) -> (r: bool)
    ensures
        r == transient(code, try_again),
{
    code < 0 && code == try_again
}

/// Finds the last stream that carries video, among those whose index fits an `i32`.
pub fn select_video_stream(video: &Vec<bool>) -> (r: Option<i32>)
    ensures
        r == last_video(video@),
        match r {
            Some(i) => 0 <= i < video@.len() && video@[i as int] && forall|j: int|
                i < j < video@.len() && j <= i32::MAX ==> !video@[j],
            None => forall|j: int| 0 <= j < video@.len() && j <= i32::MAX ==> !video@[j],
        },
{
    let mut found: Option<i32> = None;
    let mut i: usize = 0;
    while i < video.len() && i <= 0x7fff_ffff
        invariant
            i <= video@.len(),
            i <= 0x8000_0000,
            found == last_video(video@.take(i as int)),
        decreases video@.len() - i,
    {
        if video[i] {
            found = Some(i as i32);
        }
        proof {
            let next = video@.take(i + 1);
            assert(next.drop_last() =~= video@.take(i as int));
            assert(next.last() == video@[i as int]);
        }
        i += 1;
    }
    proof {
        lemma_last_video_beyond(video@, i as int);
        lemma_last_video(video@);
    }
    found
}

/// Streams whose index does not fit an `i32` do not count.
proof fn lemma_last_video_beyond(video: Seq<bool>, n: int)
    requires
        0 <= n <= video.len(),
        n == video.len() || n > i32::MAX,
    ensures
        last_video(video) == last_video(video.take(n)),
    decreases video.len() - n,
{
    if n == video.len() {
        assert(video.take(n) =~= video);
    } else {
        assert(video.drop_last().take(n) =~= video.take(n));
        lemma_last_video_beyond(video.drop_last(), n);
    }
}

impl Capture {
    /// The settings that the session was made with.
    pub closed spec fn spec_settings(&self) -> CaptureSettings {
        self.settings
    }

    /// A session on the device that `settings` describe; nothing is opened yet.
    pub fn new(settings: CaptureSettings) -> (r: Capture)
        ensures
            r@ == CaptureState::created(),
            r.spec_settings() == settings,
    {
        Capture {
            settings,
            context: Handle::Absent,
            input: Handle::Absent,
            packet: Handle::Absent,
            frame: Handle::Absent,
            transcode_frame: Handle::Absent,
            codec_context: Handle::Absent,
            videoindex: 0,
            phase: Phase::Created,
            pending: NativeCall::AllocContext,
            target_len: 0,
            filled: Vec::new(),
        }
    }

    /// The settings that the session was made with.
    pub fn settings(&self) -> (r: &CaptureSettings)
        ensures
            *r == self.spec_settings(),
    {
        &self.settings
    }

    /// Where the session stands.
    pub fn phase(&self) -> (r: Phase)
        ensures
            r == self@.phase,
    {
        self.phase
    }

    /// The index of the selected video stream.
    pub fn videoindex(&self) -> (r: i32)
        ensures
            r == self@.videoindex,
    {
        self.videoindex
    }

    /// The call that the driver owes an answer to, if any.
    pub fn pending(&self) -> (r: Option<NativeCall>)
        ensures
            r == if self@.phase == Phase::Opening || self@.phase == Phase::Reading {
                Some(self@.pending)
            } else {
                None
            },
    {
        match self.phase {
            Phase::Opening => Some(self.pending),
            Phase::Reading => Some(self.pending),
            _ => None,
        }
    }

    /// Whether the session holds a live handle of `resource`.
    pub fn holds(&self, resource: Resource) -> (r: bool)
        ensures
            r == (self@.handle(resource) == Handle::Live),
    {
        let handle = match resource {
            Resource::CodecContext => self.codec_context,
            Resource::TranscodeFrame => self.transcode_frame,
            Resource::Frame => self.frame,
            Resource::Packet => self.packet,
            Resource::Context => self.context,
        };
        handle == Handle::Live
    }

    /// The size of the destination buffer of a read: three bytes per pixel.
    /// Fails with `InvalidBuffer` where that size does not fit a `usize`.
    pub fn get_buffer_size(&self) -> (r: Result<usize, CaptureError>)
        ensures
            match r {
                Ok(size) => size == self.spec_settings().frame_bytes(),
                Err(e) => self.spec_settings().frame_bytes() > usize::MAX && e.kind()
                    == CaptureFault::InvalidBuffer && e.message()
                    == self.spec_settings().resolution_text() + " does not fit a pixel buffer"@,
            },
    {
        let width = self.settings.resolution.0 as u128;
        let height = self.settings.resolution.1 as u128;
        assert(width * height * 3 <= 0xffff_ffff * 0xffff_ffff * 3) by (nonlinear_arith)
            requires
                width <= 0xffff_ffff,
                height <= 0xffff_ffff,
        ;
        let size: u128 = width * height * 3;
        if size <= usize::MAX as u128 {
            Ok(size as usize)
        } else {
            let mut message = self.settings.resolution_as_string();
            message.append(" does not fit a pixel buffer");
            Err(CaptureError::InvalidBuffer(message))
        }
    }

    /// Checks that every handle a read needs is usable: the context, the
    /// packet, the decoder and the frame, in this order.
    pub fn collect_state(&self) -> (r: Result<(), CaptureError>)
        ensures
            match self@.missing_handle() {
                Some(name) => r matches Err(e) && e.kind() == CaptureFault::NullPointer
                    && e.message() == name,
                None => r is Ok,
            },
    {
        if self.context != Handle::Live {
            return Err(CaptureError::NullPointer(String::from_str("Invalid context")));
        }
        if self.packet != Handle::Live {
            return Err(CaptureError::NullPointer(String::from_str("Invalid packet")));
        }
        if self.codec_context != Handle::Live {
            return Err(CaptureError::NullPointer(String::from_str("Invalid codec_context")));
        }
        if self.frame != Handle::Live {
            return Err(CaptureError::NullPointer(String::from_str("Invalid frame")));
        }
        Ok(())
    }

    /// Gives up every handle and lists the live ones in release order.
    fn release_all(&mut self, phase: Phase) -> (r: Vec<Resource>)
        ensures
            r@ == old(self)@.release_order(),
            final(self)@ == old(self)@.released(phase),
            final(self).spec_settings() == old(self).spec_settings(),
    {
        let mut release: Vec<Resource> = Vec::new();
        if self.codec_context == Handle::Live {
            release.push(Resource::CodecContext);
        }
        if self.transcode_frame == Handle::Live {
            release.push(Resource::TranscodeFrame);
        }
        if self.frame == Handle::Live {
            release.push(Resource::Frame);
        }
        if self.packet == Handle::Live {
            release.push(Resource::Packet);
        }
        if self.context == Handle::Live {
            release.push(Resource::Context);
        }
        assert(release@ =~= old(self)@.release_order());
        self.context = Handle::Absent;
        self.input = Handle::Absent;
        self.packet = Handle::Absent;
        self.frame = Handle::Absent;
        self.transcode_frame = Handle::Absent;
        self.codec_context = Handle::Absent;
        self.phase = phase;
        self.filled = Vec::new();
        release
    }

    /// Fails the open sequence with `error`, handing out what is held.
    fn fail_open(&mut self, error: CaptureError) -> (r: Progress)
        ensures
            (final(self)@, r@) == old(self)@.fail_open(error.kind(), error.message()),
            final(self).spec_settings() == old(self).spec_settings(),
    {
        let release = self.release_all(Phase::Failed);
        Progress::Failed { error, release }
    }

    /// Fails the read under way with `error`; the session is ready again.
    fn fail_read(&mut self, error: CaptureError) -> (r: Progress)
        ensures
            (final(self)@, r@) == old(self)@.fail_read(error.kind(), error.message()),
            final(self).spec_settings() == old(self).spec_settings(),
    {
        self.phase = Phase::Ready;
        self.filled = Vec::new();
        Progress::Failed { error, release: Vec::new() }
    }

    /// Asks the driver for `call`.
    fn ask(&mut self, call: NativeCall) -> (r: Progress)
        ensures
            (final(self)@, r@) == old(self)@.ask(call),
            final(self).spec_settings() == old(self).spec_settings(),
    {
        self.pending = call;
        Progress::Call(call)
    }

    /// Starts the open sequence. Only a session that has opened nothing can be
    /// opened; any other answers `NotReady` and stays as it is.
    pub fn init(&mut self) -> (r: Progress)
        ensures
            (final(self)@, r@) == old(self)@.init(),
            final(self).spec_settings() == old(self).spec_settings(),
    {
        if self.phase == Phase::Created {
            self.phase = Phase::Opening;
            self.ask(NativeCall::AllocContext)
        } else {
            Progress::Failed { error: CaptureError::NotReady, release: Vec::new() }
        }
    }

    /// Starts a read into a destination of `len` bytes. A session that is not
    /// open, or has a read under way, answers `NotReady`.
    pub fn read(&mut self, len: usize) -> (r: Progress)
        ensures
            (final(self)@, r@) == old(self)@.read(len),
            final(self).spec_settings() == old(self).spec_settings(),
    {
        if self.phase != Phase::Ready {
            return Progress::Failed { error: CaptureError::NotReady, release: Vec::new() };
        }
        match self.collect_state() {
            Err(error) => self.fail_read(error),
            Ok(()) => {
                self.phase = Phase::Reading;
                self.target_len = len;
                self.filled = Vec::new();
                self.ask(NativeCall::ReadPacket)
            },
        }
    }

    /// Takes the driver's report of the outstanding call and answers with what
    /// comes next.
    pub fn advance(&mut self, reply: NativeReply) -> (r: Progress)
        ensures
            (final(self)@, r@) == old(self)@.step(reply),
            final(self).spec_settings() == old(self).spec_settings(),
            old(self)@.phase == Phase::Reading && old(self)@.pending == NativeCall::ConvertFrame
                ==> (reply matches NativeReply::Converted { required_size } && required_size as int
                != old(self)@.target_len as int ==> (r matches Progress::Failed { error, .. }
                && error.kind() == CaptureFault::InvalidBuffer)),
    {
        match self.phase {
            Phase::Opening => self.open_device(reply),
            Phase::Reading => self.capture_next_frame(reply),
            _ => Progress::Failed { error: CaptureError::NotReady, release: Vec::new() },
        }
    }

    /// One step of the open sequence.
    fn open_device(&mut self, reply: NativeReply) -> (r: Progress)
        requires
            old(self)@.phase == Phase::Opening,
        ensures
            (final(self)@, r@) == old(self)@.open_step(reply),
            final(self).spec_settings() == old(self).spec_settings(),
    {
        match (self.pending, reply) {
            (NativeCall::AllocContext, NativeReply::Allocated { live }) => {
                self.context = if live {
                    Handle::Live
                } else {
                    Handle::Null
                };
                self.ask(NativeCall::FindInputFormat)
            },
            (NativeCall::FindInputFormat, NativeReply::Lookup { found, subject }) => {
                if !found {
                    self.fail_open(CaptureError::InvalidDriver)
                } else {
                    self.input = Handle::Live;
                    if self.context != Handle::Live {
                        self.fail_open(
                            CaptureError::NullPointer(String::from_str("Invalid context")),
                        )
                    } else {
                        self.ask(NativeCall::OpenInput)
                    }
                }
            },
            (NativeCall::FindInputFormat, NativeReply::Refused { detail }) => self.fail_open(
                CaptureError::NullPointer(detail),
            ),
            (NativeCall::OpenInput, NativeReply::Refused { detail }) => self.fail_open(
                CaptureError::NullPointer(detail),
            ),
            (NativeCall::OpenInput, NativeReply::Status { code, detail }) => {
                if code != 0 {
                    self.context = Handle::Absent;
                    self.fail_open(
                        CaptureError::NativeError(
                            native_text(code, detail, "avformat_open_input failed"),
                        ),
                    )
                } else {
                    self.ask(NativeCall::FindStreamInfo)
                }
            },
            (NativeCall::FindStreamInfo, NativeReply::Status { code, detail }) => {
                if code < 0 {
                    self.fail_open(
                        CaptureError::NativeError(
                            native_text(code, detail, "avformat_find_stream_info failed"),
                        ),
                    )
                } else {
                    self.ask(NativeCall::ListStreams)
                }
            },
            (NativeCall::ListStreams, NativeReply::Streams { video }) => {
                match select_video_stream(&video) {
                    None => self.fail_open(
                        CaptureError::MissingStream(
                            String::from_str("No video streams found in device"),
                        ),
                    ),
                    Some(index) => {
                        self.videoindex = index;
                        self.ask(NativeCall::FindDecoder)
                    },
                }
            },
            (NativeCall::FindDecoder, NativeReply::Lookup { found, subject }) => {
                if !found {
                    let mut message = String::from_str("No codec matching ");
                    message.append(subject.as_str());
                    message.append(" found. avcodec_find_decoder failed");
                    self.fail_open(CaptureError::MissingCodec(message))
                } else {
                    self.ask(NativeCall::OpenDecoder)
                }
            },
            (NativeCall::OpenDecoder, NativeReply::Status { code, detail }) => {
                if code < 0 {
                    self.fail_open(
                        CaptureError::NativeError(native_text(code, detail, "avcodec_open2 failed")),
                    )
                } else {
                    self.codec_context = Handle::Live;
                    self.ask(NativeCall::AllocPacket)
                }
            },
            (NativeCall::AllocPacket, NativeReply::Allocated { live }) => {
                self.packet = if live {
                    Handle::Live
                } else {
                    Handle::Null
                };
                self.ask(NativeCall::AllocFrame)
            },
            (NativeCall::AllocFrame, NativeReply::Allocated { live }) => {
                self.frame = if live {
                    Handle::Live
                } else {
                    Handle::Null
                };
                self.phase = Phase::Ready;
                Progress::Opened
            },
            _ => Progress::Call(self.pending),
        }
    }

    /// One step of the read under way.
    fn capture_next_frame(&mut self, reply: NativeReply) -> (r: Progress)
        requires
            old(self)@.phase == Phase::Reading,
        ensures
            (final(self)@, r@) == old(self)@.read_step(reply),
            final(self).spec_settings() == old(self).spec_settings(),
    {
        match (self.pending, reply) {
            (
                NativeCall::ReadPacket,
                NativeReply::Packet { code, try_again, detail, stream_index },
            ) => {
                if code < 0 {
                    if is_transient(code, try_again) {
                        self.ask(NativeCall::ReadPacket)
                    } else {
                        self.fail_read(
                            CaptureError::DeviceLost(
                                native_text(code, detail, "av_read_frame failed"),
                            ),
                        )
                    }
                } else if stream_index != self.videoindex {
                    self.ask(NativeCall::ReadPacket)
                } else {
                    self.ask(NativeCall::DecodePacket)
                }
            },
            (NativeCall::DecodePacket, NativeReply::Picture { code, detail, got_picture }) => {
                if code < 0 {
                    self.fail_read(
                        CaptureError::NativeError(
                            native_text(code, detail, "avcodec_decode_video2 failed"),
                        ),
                    )
                } else if !got_picture {
                    self.ask(NativeCall::DiscardPacket)
                } else {
                    self.convert_frame()
                }
            },
            (NativeCall::DiscardPacket, NativeReply::Done) => self.ask(NativeCall::ReadPacket),
            (NativeCall::AllocScratch, NativeReply::Allocated { live }) => {
                if live {
                    self.transcode_frame = Handle::Live;
                    self.ask(NativeCall::ConvertFrame)
                } else {
                    self.fail_read(
                        CaptureError::NullPointer(String::from_str("Invalid transcode frame")),
                    )
                }
            },
            (NativeCall::ConvertFrame, NativeReply::Converted { required_size }) => {
                if required_size < 0 || required_size as u128 != self.target_len as u128 {
                    let message = size_text(required_size as i128, self.target_len as i128);
                    self.fail_read(CaptureError::InvalidBuffer(message))
                } else {
                    self.ask(NativeCall::CopyToBuffer)
                }
            },
            (NativeCall::CopyToBuffer, NativeReply::Copied { code, detail, data }) => {
                if code < 0 {
                    self.fail_read(
                        CaptureError::NativeError(
                            native_text(code, detail, "av_image_copy_to_buffer failed"),
                        ),
                    )
                } else if data.len() != self.target_len {
                    let message = size_text(self.target_len as i128, data.len() as i128);
                    self.fail_read(CaptureError::InvalidBuffer(message))
                } else {
                    self.filled = data;
                    self.ask(NativeCall::ReleasePacket)
                }
            },
            (NativeCall::ReleasePacket, NativeReply::Done) => {
                let mut data: Vec<u8> = Vec::new();
                std::mem::swap(&mut self.filled, &mut data);
                self.phase = Phase::Ready;
                Progress::Filled(data)
            },
            _ => Progress::Call(self.pending),
        }
    }

    /// Picks the call that converts the decoded frame: the conversion itself
    /// where the scratch frame exists, its allocation where it does not yet.
    fn convert_frame(&mut self) -> (r: Progress)
        ensures
            (final(self)@, r@) == old(self)@.ask(
                if old(self)@.transcode_frame == Handle::Live {
                    NativeCall::ConvertFrame
                } else {
                    NativeCall::AllocScratch
                },
            ),
            final(self).spec_settings() == old(self).spec_settings(),
    {
        if self.transcode_frame == Handle::Live {
            self.ask(NativeCall::ConvertFrame)
        } else {
            self.ask(NativeCall::AllocScratch)
        }
    }

    /// Ends the session: every live handle is handed out for release, in the
    /// order in which the driver must release it.
    pub fn shutdown(self) -> (r: Vec<Resource>)
        ensures
            r@ == self@.release_order(),
    {
        let mut session = self;
        session.release_all(Phase::Failed)
    }
}

/// Writes the message of a size mismatch.
fn size_text(required: i128, actual: i128) -> (r: String)
    ensures
        r@ == size_message(required as int, actual as int),
{
    let mut message = String::from_str("required size ");
    message.append(decimal_i128(required).as_str());
    message.append(" != data size ");
    message.append(decimal_i128(actual).as_str());
    message
}

} // verus!
