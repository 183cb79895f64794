//! The hardware backend: a camera on a device that the decoding library opens.

use super::error::{hardware_fault, hardware_message, HardwareError, HardwareFault};
use super::mock_camera::Picture;
use super::protocol::{
    not_ready, CameraLike, Lifecycle, Request, RequestView, Response, Step, StepView,
};
use crate::capture::session::{
    Capture, CaptureState, NativeCall, Outcome, Phase, Progress, Resource,
};
use crate::capture::settings::CaptureSettings;
use crate::encoding::{packed_len, Encoding, Frame};
use crate::resources::config_map::ConfigMap;
use crate::text::{decimal_text, parse_u32, parsed_u32};
use vstd::prelude::*;
use vstd::string::StrSliceExecFns;
use vstd::string::StringExecFns;

verus! {

/// What follows the offending text in the message of a malformed resolution.
pub open spec fn resolution_hint() -> Seq<char> {
    " is not a valid resolution; use the format AAAxBBB, eg. 640x480"@
}

/// Whether the character at `at` is the only `x` of a text.
pub open spec fn splits_at(value: Seq<char>, at: int) -> bool {
    &&& 0 <= at < value.len()
    &&& value[at] == 'x'
    &&& forall|j: int| 0 <= j < value.len() && j != at ==> value[j] != 'x'
}

/// What a text denotes as a resolution in the form `WIDTHxHEIGHT`: the two
/// numbers around its only `x`, or the complaint about the text (where it
/// does not hold exactly one `x`) or about the first part that is no number.
pub open spec fn resolution_of(value: Seq<char>) -> Result<(u32, u32), Seq<char>> {
    if !(exists|at: int| splits_at(value, at)) {
        Err(value + resolution_hint())
    } else {
        let at = choose|at: int| splits_at(value, at);
        let first = value.subrange(0, at);
        let second = value.subrange(at + 1, value.len() as int);
        match (parsed_u32(first), parsed_u32(second)) {
            (None, _) => Err(first + " in "@ + value + resolution_hint()),
            (Some(_), None) => Err(second + " in "@ + value + resolution_hint()),
            (Some(width), Some(height)) => Ok((width, height)),
        }
    }
}

/// The value of a setting, or a fallback where it is not set.
pub open spec fn setting_or(
    config: Map<Seq<char>, Seq<char>>,
    key: Seq<char>,
    fallback: Seq<char>,
) -> Seq<char> {
    if config.contains_key(key) {
        config[key]
    } else {
        fallback
    }
}

/// What follows the offending text in the message of a malformed frame rate.
pub open spec fn framerate_hint() -> Seq<char> {
    " is not a valid framerate; use a whole number, eg. 24"@
}

/// The frame rate that a configuration asks for: one where none is set, the
/// setting read as a number where it is one, and else the complaint about
/// the setting.
pub open spec fn framerate_of(config: Map<Seq<char>, Seq<char>>) -> Result<u32, Seq<char>> {
    if !config.contains_key("framerate"@) {
        Ok(1)
    } else {
        match parsed_u32(config["framerate"@]) {
            Some(rate) => Ok(rate),
            None => Err(config["framerate"@] + framerate_hint()),
        }
    }
}

/// The message for a resolution whose frames do not fit a buffer.
pub open spec fn oversize_message(width: u32, height: u32) -> Seq<char> {
    decimal_text(width as int) + seq!['x'] + decimal_text(height as int)
        + " does not fit a pixel buffer"@
}

/// The mathematical content of an [`AvCamera`], settings aside.
pub struct AvState {
    pub lifecycle: Lifecycle,
    /// The capture session, from a successful start of `initialize` to `shutdown`.
    pub capture: Option<CaptureState>,
    pub width: u32,
    pub height: u32,
    /// The frame that `frame` hands out.
    pub picture: Option<Picture>,
}

impl AvState {
    /// A camera that was never initialized.
    pub open spec fn created() -> AvState {
        AvState {
            lifecycle: Lifecycle::Uninitialized,
            capture: None,
            width: 0,
            height: 0,
            picture: None,
        }
    }

    /// The states that a hardware camera can be in: the capture session
    /// exists while the camera is initializing, ready or streaming, and is in
    /// the matching phase; a frame on offer has the configured size.
    pub open spec fn wf(self) -> bool {
        &&& match self.lifecycle {
            Lifecycle::Initializing => self.capture matches Some(c) && c.phase == Phase::Opening,
            Lifecycle::Ready => self.capture matches Some(c) && c.phase == Phase::Ready,
            Lifecycle::Streaming => self.capture matches Some(c) && c.phase == Phase::Reading,
            _ => self.capture is None,
        }
        &&& packed_len(self.width, self.height) <= usize::MAX
        &&& (self.picture matches Some(p) ==> p.width == self.width && p.height == self.height
            && p.bytes.len() == packed_len(p.width, p.height))
    }

    /// The camera after an operation failed: no frame is on offer.
    pub open spec fn failed(self, lifecycle: Lifecycle, capture: Option<CaptureState>) -> AvState {
        AvState { lifecycle, capture, picture: None, ..self }
    }

    /// The start of initializing: the settings are read, and the capture
    /// session is made and asked to open. A resolution or a frame rate that
    /// is malformed, or a resolution whose frames fit no buffer, fails it with
    /// `InvalidSettings`, and the camera keeps nothing of the configuration.
    pub open spec fn initialize(self, config: Map<Seq<char>, Seq<char>>) -> (AvState, StepView) {
        if self.lifecycle != Lifecycle::Uninitialized {
            (self, not_ready())
        } else {
            match resolution_of(setting_or(config, "resolution"@, "640x480"@)) {
                Err(message) => (
                    self.failed(Lifecycle::Failed, None),
                    StepView::Failed {
                        kind: HardwareFault::InvalidSettings,
                        message,
                        release: Seq::empty(),
                    },
                ),
                Ok((width, height)) => if framerate_of(config) is Err {
                    (
                        self.failed(Lifecycle::Failed, None),
                        StepView::Failed {
                            kind: HardwareFault::InvalidSettings,
                            message: framerate_of(config)->Err_0,
                            release: Seq::empty(),
                        },
                    )
                } else if packed_len(width, height) > usize::MAX {
                    (
                        self.failed(Lifecycle::Failed, None),
                        StepView::Failed {
                            kind: HardwareFault::InvalidSettings,
                            message: oversize_message(width, height),
                            release: Seq::empty(),
                        },
                    )
                } else {
                    (
                        AvState {
                            lifecycle: Lifecycle::Initializing,
                            capture: Some(CaptureState::created().init().0),
                            width,
                            height,
                            picture: None,
                        },
                        StepView::Perform(RequestView::Native(NativeCall::AllocContext)),
                    )
                },
            }
        }
    }

    /// What an answer of the capture session means for the camera.
    pub open spec fn taken(self, capture: CaptureState, outcome: Outcome) -> (AvState, StepView) {
        match outcome {
            Outcome::Call(call) => (
                AvState {
                    lifecycle: if capture.phase == Phase::Opening {
                        Lifecycle::Initializing
                    } else {
                        Lifecycle::Streaming
                    },
                    capture: Some(capture),
                    picture: None,
                    ..self
                },
                StepView::Perform(RequestView::Native(call)),
            ),
            Outcome::Opened => (
                AvState {
                    lifecycle: Lifecycle::Ready,
                    capture: Some(capture),
                    picture: None,
                    ..self
                },
                StepView::Ready,
            ),
            Outcome::Filled(data) => if data.len() == packed_len(self.width, self.height) {
                (
                    AvState {
                        lifecycle: Lifecycle::Ready,
                        capture: Some(capture),
                        picture: Some(
                            Picture { width: self.width, height: self.height, bytes: data },
                        ),
                        ..self
                    },
                    StepView::Frame,
                )
            } else {
                (
                    self.failed(Lifecycle::Ready, Some(capture)),
                    StepView::Failed {
                        kind: HardwareFault::FailedToEncodeFrame,
                        message: "InvalidLength"@,
                        release: Seq::empty(),
                    },
                )
            },
            Outcome::Failed { kind, message, release } => (
                if capture.phase == Phase::Failed {
                    self.failed(Lifecycle::Failed, None)
                } else {
                    self.failed(Lifecycle::Ready, Some(capture))
                },
                StepView::Failed {
                    kind: hardware_fault(kind),
                    message: hardware_message(kind, message),
                    release,
                },
            ),
        }
    }

    /// The start of a read.
    pub open spec fn next(self) -> (AvState, StepView) {
        if self.lifecycle != Lifecycle::Ready || self.capture is None {
            (self, not_ready())
        } else {
            let read = self.capture->0.read(packed_len(self.width, self.height) as usize);
            self.taken(read.0, read.1)
        }
    }

    /// The camera after the driver's report of the outstanding call. A report
    /// that is none of the decoding library changes nothing, and the call is
    /// asked for again.
    pub open spec fn resume(self, response: Response) -> (AvState, StepView) {
        if !(self.lifecycle == Lifecycle::Initializing || self.lifecycle == Lifecycle::Streaming)
            || self.capture is None {
            (self, not_ready())
        } else {
            match response {
                Response::Native(reply) => {
                    let stepped = self.capture->0.step(reply);
                    self.taken(stepped.0, stepped.1)
                },
                _ => (self, StepView::Perform(RequestView::Native(self.capture->0.pending))),
            }
        }
    }

    /// What shutdown hands out for release: what the capture session holds.
    pub open spec fn release(self) -> Seq<Resource> {
        match self.capture {
            Some(c) => c.release_order(),
            None => Seq::empty(),
        }
    }

    /// The state after shutdown.
    pub open spec fn closed(self) -> AvState {
        self.failed(Lifecycle::Closed, None)
    }
}

/// A camera on a hardware device.
pub struct AvCamera {
    state: Lifecycle,
    buffer: Option<Vec<u8>>,
    capture: Option<Capture>,
    encoder: Encoding,
    width: u32,
    height: u32,
}

impl View for AvCamera {
    type V = AvState;

    closed spec fn view(&self) -> AvState {
        AvState {
            lifecycle: self.state,
            capture: match self.capture {
                Some(c) => Some(c@),
                None => None,
            },
            width: self.width,
            height: self.height,
            picture: match self.buffer {
                Some(bytes) => Some(
                    Picture { width: self.width, height: self.height, bytes: bytes@ },
                ),
                None => None,
            },
        }
    }
}

impl Default for AvCamera {
    fn default() -> (r: Self)
        ensures
            r@ == AvState::created(),
    {
        AvCamera::new()
    }
}

/// The value of a setting, or a fallback where it is not set.
fn setting(config: &ConfigMap, key: &str, fallback: &str) -> (r: String)
    ensures
        r@ == setting_or(config@, key@, fallback@),
{
    match config.get_string(key) {
        Some(value) => value,
        None => String::from_str(fallback),
    }
}

impl AvCamera {
    /// The settings of the capture session, while there is one.
    pub closed spec fn settings(&self) -> Option<CaptureSettings> {
        match self.capture {
            Some(c) => Some(c.spec_settings()),
            None => None,
        }
    }

    /// The capture session, while there is one: the driver reads the settings
    /// and the selected stream from it.
    pub fn capture(&self) -> (r: Option<&Capture>)
        ensures
            match r {
                Some(c) => self@.capture == Some(c@) && self.settings() == Some(
                    c.spec_settings(),
                ),
                None => self@.capture is None,
            },
    {
        self.capture.as_ref()
    }

    /// A hardware camera that was never initialized: it has no capture
    /// session yet, and so no settings.
    pub fn new() -> (r: AvCamera)
        ensures
            r@ == AvState::created(),
            r@.wf(),
            r.settings() is None,
    {
        AvCamera {
            state: Lifecycle::Uninitialized,
            buffer: None,
            capture: None,
            encoder: Encoding::new(),
            width: 0,
            height: 0,
        }
    }

    /// Reads a resolution in the form `WIDTHxHEIGHT`, such as `640x480`. A text
    /// that does not hold exactly one `x`, or whose parts are not both
    /// numbers that fit a `u32`, is refused with `InvalidSettings`.
    pub fn as_resolution_tuple(value: &str) -> (r: Result<(u32, u32), HardwareError>)
        ensures
            match resolution_of(value@) {
                Ok(size) => r == Ok::<(u32, u32), HardwareError>(size),
                Err(message) => r matches Err(e) && e.kind() == HardwareFault::InvalidSettings
                    && e.message() == message,
            },
    {
        let length = value.unicode_len();
        let mut first: Option<usize> = None;
        let mut more = false;
        let mut i: usize = 0;
        while i < length
            invariant
                i <= length,
                length == value@.len(),
                match first {
                    None => !more && forall|j: int| 0 <= j < i ==> value@[j] != 'x',
                    Some(at) => at < i && value@[at as int] == 'x' && (forall|j: int|
                        0 <= j < at ==> value@[j] != 'x') && (more <==> exists|j: int|
                        at < j < i && value@[j] == 'x'),
                },
            decreases length - i,
        {
            let c = value.get_char(i);
            if c == 'x' {
                match first {
                    None => {
                        first = Some(i);
                    },
                    Some(_) => {
                        more = true;
                    },
                }
            }
            i += 1;
        }
        let at = match first {
            Some(at) if !more => at,
            _ => {
                proof {
                    assert forall|k: int| !splits_at(value@, k) by {
                        if splits_at(value@, k) {
                            match first {
                                None => {},
                                Some(at) => {
                                    let j = choose|j: int| at < j < length && value@[j] == 'x';
                                    assert(value@[j] == 'x');
                                    assert(value@[at as int] == 'x');
                                },
                            }
                        }
                    }
                }
                return Err(HardwareError::InvalidSettings(complaint(value, None)));
            },
        };
        proof {
            assert(splits_at(value@, at as int));
            let chosen = choose|k: int| splits_at(value@, k);
            assert(splits_at(value@, chosen));
            assert(chosen == at);
        }
        let first_part = value.substring_char(0, at);
        let second_part = value.substring_char(at + 1, length);
        let width = match parse_u32(first_part) {
            Some(v) => v,
            None => {
                return Err(HardwareError::InvalidSettings(complaint(value, Some(first_part))));
            },
        };
        let height = match parse_u32(second_part) {
            Some(v) => v,
            None => {
                return Err(HardwareError::InvalidSettings(complaint(value, Some(second_part))));
            },
        };
        Ok((width, height))
    }

    /// Reads the frame rate of a configuration: one where none is set; a
    /// setting that is no number that fits a `u32` is refused with
    /// `InvalidSettings`.
    pub fn as_framerate(config: &ConfigMap) -> (r: Result<u32, HardwareError>)
        ensures
            match framerate_of(config@) {
                Ok(rate) => r == Ok::<u32, HardwareError>(rate),
                Err(message) => r matches Err(e) && e.kind() == HardwareFault::InvalidSettings
                    && e.message() == message,
            },
    {
        match config.get_string("framerate") {
            None => Ok(1),
            Some(value) => match parse_u32(value.as_str()) {
                Some(rate) => Ok(rate),
                None => {
                    let mut message = value;
                    message.append(" is not a valid framerate; use a whole number, eg. 24");
                    Err(HardwareError::InvalidSettings(message))
                },
            },
        }
    }

    /// The frame on offer: the one that the latest successful `next` fetched.
    /// It is there until the next call of `next` or `shutdown`.
    pub fn frame(&self) -> (r: Option<Frame<'_>>)
        ensures
            self@.wf() ==> (match self@.picture {
                Some(p) => r matches Some(f) && f.spec_width() == p.width && f.spec_height()
                    == p.height && f.bytes() == p.bytes,
                None => r is None,
            }),
            r matches Some(f) ==> self@.picture is Some,
    {
        match &self.buffer {
            None => None,
            Some(bytes) => match self.encoder.frame_from_slice(
                bytes.as_slice(),
                self.width,
                self.height,
            ) {
                Ok(frame) => Some(frame),
                Err(_) => None,
            },
        }
    }

    /// Fails the operation under way: the camera goes to `state` and offers no frame.
    fn fail(&mut self, state: Lifecycle, error: HardwareError, release: Vec<Resource>) -> (step:
        Step)
        ensures
            final(self)@ == old(self)@.failed(state, old(self)@.capture),
            final(self).settings() == old(self).settings(),
            step@ == (StepView::Failed {
                kind: error.kind(),
                message: error.message(),
                release: release@,
            }),
    {
        self.state = state;
        self.buffer = None;
        Step::Failed { error, release }
    }

    /// Takes an answer of the capture session.
    fn take(&mut self, capture: Capture, progress: Progress) -> (step: Step)
        requires
            old(self)@.capture is None,
            packed_len(old(self)@.width, old(self)@.height) <= usize::MAX,
        ensures
            (final(self)@, step@) == old(self)@.taken(capture@, progress@),
            final(self)@.capture is Some ==> final(self).settings() == Some(
                capture.spec_settings(),
            ),
    {
        self.buffer = None;
        match progress {
            Progress::Call(call) => {
                self.state = match capture.phase() {
                    Phase::Opening => Lifecycle::Initializing,
                    _ => Lifecycle::Streaming,
                };
                self.capture = Some(capture);
                Step::Perform(Request::Native(call))
            },
            Progress::Opened => {
                self.state = Lifecycle::Ready;
                self.capture = Some(capture);
                Step::Ready
            },
            Progress::Filled(data) => {
                self.state = Lifecycle::Ready;
                self.capture = Some(capture);
                let fits = self.encoder.frame_from_slice(
                    data.as_slice(),
                    self.width,
                    self.height,
                ).is_ok();
                if fits {
                    self.buffer = Some(data);
                    Step::Frame
                } else {
                    Step::Failed {
                        error: HardwareError::FailedToEncodeFrame(
                            String::from_str("InvalidLength"),
                        ),
                        release: Vec::new(),
                    }
                }
            },
            Progress::Failed { error, release } => {
                match capture.phase() {
                    Phase::Failed => {
                        self.state = Lifecycle::Failed;
                        self.capture = None;
                    },
                    _ => {
                        self.state = Lifecycle::Ready;
                        self.capture = Some(capture);
                    },
                }
                Step::Failed { error: HardwareError::from_capture(&error), release }
            },
        }
    }
}

/// The message for a malformed resolution: about the whole text, or about one
/// of its parts.
fn complaint(value: &str, part: Option<&str>) -> (r: String)
    ensures
        r@ == match part {
            Some(p) => p@ + " in "@ + value@ + resolution_hint(),
            None => value@ + resolution_hint(),
        },
{
    let mut text = match part {
        Some(p) => {
            let mut text = String::from_str(p);
            text.append(" in ");
            text.append(value);
            text
        },
        None => String::from_str(value),
    };
    text.append(" is not a valid resolution; use the format AAAxBBB, eg. 640x480");
    text
}

impl CameraLike for AvCamera {
    open spec fn lifecycle(&self) -> Lifecycle {
        self@.lifecycle
    }

    open spec fn wf(&self) -> bool {
        self@.wf()
    }

    fn initialize(&mut self, config: ConfigMap) -> (step: Step)
        ensures
            (final(self)@, step@) == old(self)@.initialize(config@),
            old(self)@.lifecycle == Lifecycle::Uninitialized && final(self)@.lifecycle
                == Lifecycle::Initializing ==> (final(self).settings() matches Some(
                s,
            ) && s.backend@ == setting_or(config@, "backend"@, ""@) && s.device@ == setting_or(
                config@,
                "device"@,
                ""@,
            ) && s.pixel_format@ == setting_or(config@, "pixel_format"@, ""@) && Ok::<
                u32,
                Seq<char>,
            >(s.framerate) == framerate_of(config@) && Ok::<(u32, u32), Seq<char>>(s.resolution)
                == resolution_of(setting_or(config@, "resolution"@, "640x480"@))),
    {
        if self.state != Lifecycle::Uninitialized {
            return Step::Failed { error: HardwareError::NotReady, release: Vec::new() };
        }
        let resolution_text = setting(&config, "resolution", "640x480");
        let resolution = match AvCamera::as_resolution_tuple(resolution_text.as_str()) {
            Ok(size) => size,
            Err(error) => {
                self.capture = None;
                return self.fail(Lifecycle::Failed, error, Vec::new());
            },
        };
        let framerate = match AvCamera::as_framerate(&config) {
            Ok(rate) => rate,
            Err(error) => {
                self.capture = None;
                return self.fail(Lifecycle::Failed, error, Vec::new());
            },
        };
        let settings = CaptureSettings {
            backend: setting(&config, "backend", ""),
            device: setting(&config, "device", ""),
            resolution,
            framerate,
            pixel_format: setting(&config, "pixel_format", ""),
        };
        let mut capture = Capture::new(settings);
        match capture.get_buffer_size() {
            Err(_) => {
                self.capture = None;
                let mut message = capture.settings().resolution_as_string();
                message.append(" does not fit a pixel buffer");
                self.fail(Lifecycle::Failed, HardwareError::InvalidSettings(message), Vec::new())
            },
            Ok(_) => {
                let progress = capture.init();
                self.capture = None;
                self.width = resolution.0;
                self.height = resolution.1;
                self.take(capture, progress)
            },
        }
    }

    fn shutdown(&mut self) -> (r: Result<Vec<Resource>, HardwareError>)
        ensures
            old(self)@.lifecycle != Lifecycle::Closed ==> (r matches Ok(release) && release@
                == old(self)@.release() && final(self)@ == old(self)@.closed()),
            old(self)@.lifecycle == Lifecycle::Closed ==> final(self)@ == old(self)@,
    {
        if self.state == Lifecycle::Closed {
            return Err(HardwareError::NotReady);
        }
        let release = match self.capture.take() {
            Some(capture) => capture.shutdown(),
            None => Vec::new(),
        };
        self.capture = None;
        self.buffer = None;
        self.state = Lifecycle::Closed;
        Ok(release)
    }

    fn next(&mut self) -> (step: Step)
        ensures
            (final(self)@, step@) == old(self)@.next(),
            final(self)@.capture is Some ==> final(self).settings() == old(self).settings(),
    {
        if self.state != Lifecycle::Ready {
            return Step::Failed { error: HardwareError::NotReady, release: Vec::new() };
        }
        match self.capture.take() {
            None => Step::Failed { error: HardwareError::NotReady, release: Vec::new() },
            Some(capture) => {
                let mut capture = capture;
                assert(self.width as int * self.height as int * 3 <= usize::MAX);
                let wanted: u128 = (self.width as u128) * (self.height as u128) * 3;
                let progress = capture.read(wanted as usize);
                self.take(capture, progress)
            },
        }
    }

    fn resume(&mut self, response: Response) -> (step: Step)
        ensures
            (final(self)@, step@) == old(self)@.resume(response),
            final(self)@.capture is Some ==> final(self).settings() == old(self).settings(),
    {
        match self.state {
            Lifecycle::Initializing | Lifecycle::Streaming => {},
            _ => {
                return Step::Failed { error: HardwareError::NotReady, release: Vec::new() };
            },
        }
        match self.capture.take() {
            None => Step::Failed { error: HardwareError::NotReady, release: Vec::new() },
            Some(capture) => {
                let mut capture = capture;
                match response {
                    Response::Native(reply) => {
                        let progress = capture.advance(reply);
                        self.take(capture, progress)
                    },
                    _ => {
                        let call = match capture.pending() {
                            Some(call) => call,
                            None => NativeCall::AllocContext,
                        };
                        self.capture = Some(capture);
                        Step::Perform(Request::Native(call))
                    },
                }
            },
        }
    }
}

} // verus!
