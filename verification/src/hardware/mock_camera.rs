//! The replay backend: a stand-in camera that serves the image files of a
//! folder in sorted order, once through or round and round.

use super::error::{HardwareError, HardwareFault};
use super::protocol::{
    not_ready, CameraLike, DecodeError, DecodedImage, Lifecycle, Request, RequestView, Response,
    Step, StepView,
};
use crate::capture::session::Resource;
use crate::encoding::{packed_len, Encoding, Frame};
use crate::resources::config_map::{truthy, ConfigMap};
use crate::resources::paths::{joined_path, name_views};
use crate::resources::resource_folder::ResourceFolder;
use crate::text::{debug_text, lowercase};
use vstd::prelude::*;
use vstd::string::StringExecFns;

verus! {

/// A picture on offer: its size and its bytes.
pub struct Picture {
    pub width: u32,
    pub height: u32,
    pub bytes: Seq<u8>,
}

/// The mathematical content of a [`MockCamera`].
pub struct MockState {
    pub lifecycle: Lifecycle,
    /// Index of the file that the next call of `next` serves.
    pub cursor: int,
    /// Whether the sequence starts over when it is exhausted.
    pub repeat: bool,
    /// The folder that the files are in, once one is configured.
    pub folder: Option<Seq<char>>,
    /// Whether the folder was found on disk.
    pub folder_ready: bool,
    /// The names of the files, sorted.
    pub frames: Seq<Seq<char>>,
    /// The frame that `frame` hands out.
    pub picture: Option<Picture>,
}

/// The index of the file that a call of `next` serves, at a cursor in a
/// sequence of `count` files: the cursor's, or the first again where the
/// sequence is exhausted and repeats; nothing where it is exhausted for good
/// or empty.
pub open spec fn next_index(cursor: int, count: int, repeat: bool) -> Option<int> {
    if cursor < count {
        Some(cursor)
    } else if repeat && count > 0 {
        Some(0)
    } else {
        None
    }
}

/// The cursor after a call of `next`: behind the file served, or where it was
/// if none was.
pub open spec fn cursor_after_call(cursor: int, count: int, repeat: bool) -> int {
    match next_index(cursor, count, repeat) {
        Some(index) => index + 1,
        None => cursor,
    }
}

/// The cursor after `calls` calls of `next`.
pub open spec fn cursor_after(cursor: int, count: int, repeat: bool, calls: nat) -> int
    decreases calls,
{
    if calls == 0 {
        cursor
    } else {
        cursor_after_call(cursor_after(cursor, count, repeat, (calls - 1) as nat), count, repeat)
    }
}

/// Whether `frames` holds the names of `list`, each as often as the list, in
/// sorted order.
pub open spec fn sorted_from(frames: Seq<Seq<char>>, list: Seq<String>) -> bool {
    &&& frames.to_multiset() == name_views(list).to_multiset()
    &&& forall|i: int, j: int|
        0 <= i < j < frames.len() ==> crate::resources::paths::text_le(frames[i], frames[j])
}

/// Whether a configuration switches a flag on.
pub open spec fn flag_set(config: Map<Seq<char>, Seq<char>>, key: Seq<char>) -> bool {
    config.contains_key(key) && truthy(lowercase(config[key]))
}

impl MockState {
    /// A camera that was never initialized.
    pub open spec fn created() -> MockState {
        MockState {
            lifecycle: Lifecycle::Uninitialized,
            cursor: 0,
            repeat: false,
            folder: None,
            folder_ready: false,
            frames: Seq::empty(),
            picture: None,
        }
    }

    /// The states that a replay camera can be in.
    pub open spec fn wf(self) -> bool {
        &&& 0 <= self.cursor <= self.frames.len()
        &&& (self.frames.len() > 0 ==> self.folder is Some && self.folder_ready)
        &&& (self.lifecycle == Lifecycle::Uninitialized ==> self == MockState::created())
        &&& (self.lifecycle == Lifecycle::Initializing ==> self.folder is Some && self.frames.len()
            == 0)
        &&& (self.lifecycle == Lifecycle::Streaming ==> 0 < self.cursor && self.folder is Some
            && self.folder_ready)
        &&& (self.picture matches Some(p) ==> p.bytes.len() == packed_len(p.width, p.height))
    }

    /// The start of initializing: with a folder configured, the driver is
    /// asked to list it; with none, the camera is ready and has no frames.
    pub open spec fn initialize(self, config: Map<Seq<char>, Seq<char>>) -> (MockState, StepView) {
        if self.lifecycle != Lifecycle::Uninitialized {
            (self, not_ready())
        } else if config.contains_key("use_mock_folder"@) {
            (
                MockState {
                    lifecycle: Lifecycle::Initializing,
                    folder: Some(config["use_mock_folder"@]),
                    folder_ready: false,
                    repeat: flag_set(config, "use_mock_repeat_frames"@),
                    cursor: 0,
                    ..self
                },
                StepView::Perform(RequestView::ListFolder(config["use_mock_folder"@])),
            )
        } else {
            (MockState { lifecycle: Lifecycle::Ready, ..self }, StepView::Ready)
        }
    }

    /// The path of the file that the read under way decodes.
    pub open spec fn pending_path(self) -> Seq<char> {
        joined_path(self.folder->0, self.frames[self.cursor - 1])
    }

    /// The start of a read: the next file is picked and the driver is asked to
    /// decode it; where the sequence is exhausted the call fails with
    /// `DeviceNoLongerAvailable` and the camera stays as it is.
    pub open spec fn next(self) -> (MockState, StepView) {
        if self.lifecycle != Lifecycle::Ready {
            (self, not_ready())
        } else {
            match next_index(self.cursor, self.frames.len() as int, self.repeat) {
                None => (
                    self,
                    StepView::Failed {
                        kind: HardwareFault::DeviceNoLongerAvailable,
                        message: "Ran out of mock frames"@,
                        release: Seq::empty(),
                    },
                ),
                Some(index) => (
                    MockState {
                        lifecycle: Lifecycle::Streaming,
                        cursor: index + 1,
                        picture: None,
                        ..self
                    },
                    StepView::Perform(
                        RequestView::DecodeFile(joined_path(self.folder->0, self.frames[index])),
                    ),
                ),
            }
        }
    }

    /// The end of a read, given what decoding the file gave.
    pub open spec fn decoded(self, result: Result<DecodedImage, DecodeError>) -> (
        MockState,
        StepView,
    ) {
        let ready = MockState { lifecycle: Lifecycle::Ready, picture: None, ..self };
        match result {
            Err(DecodeError::Io(message)) => (
                ready,
                StepView::Failed {
                    kind: HardwareFault::IoError,
                    message: message@,
                    release: Seq::empty(),
                },
            ),
            Err(DecodeError::Image(message)) => (
                ready,
                StepView::Failed {
                    kind: HardwareFault::FailedToEncodeFrame,
                    message: message@,
                    release: Seq::empty(),
                },
            ),
            Ok(image) => if image.data@.len() == packed_len(image.width, image.height) {
                (
                    MockState {
                        lifecycle: Lifecycle::Ready,
                        picture: Some(
                            Picture {
                                width: image.width,
                                height: image.height,
                                bytes: image.data@,
                            },
                        ),
                        ..self
                    },
                    StepView::Frame,
                )
            } else {
                (
                    ready,
                    StepView::Failed {
                        kind: HardwareFault::FailedToEncodeFrame,
                        message: "InvalidLength"@,
                        release: Seq::empty(),
                    },
                )
            },
        }
    }

    /// What taking the listing of the folder leads to. A folder that is
    /// missing, or that could not be read, fails the initialization with
    /// `InvalidSettings` and the printed folder error, and nothing of the
    /// refused configuration is kept: but for being failed, the camera is as
    /// it was made. Otherwise the camera is ready at the start of the names,
    /// which are those listed, sorted.
    pub open spec fn listed(
        self,
        present: bool,
        names: Result<Vec<String>, String>,
        after: MockState,
        step: StepView,
    ) -> bool {
        let failed = MockState { lifecycle: Lifecycle::Failed, ..MockState::created() };
        if !present {
            after == failed && step == (StepView::Failed {
                kind: HardwareFault::InvalidSettings,
                message: "NoSuchFolder"@ + "("@ + debug_text(debug_text(self.folder->0)) + ")"@,
                release: Seq::empty(),
            })
        } else {
            match names {
                Err(message) => after == failed && step == (StepView::Failed {
                    kind: HardwareFault::InvalidSettings,
                    message: "UnableToCreateFolder"@ + "("@ + debug_text(message@) + ")"@,
                    release: Seq::empty(),
                }),
                Ok(list) => after == (MockState {
                    lifecycle: Lifecycle::Ready,
                    cursor: 0,
                    folder_ready: true,
                    picture: None,
                    frames: after.frames,
                    ..self
                }) && step == StepView::Ready && sorted_from(after.frames, list@),
            }
        }
    }

    /// The state after shutdown.
    pub open spec fn closed(self) -> MockState {
        MockState { lifecycle: Lifecycle::Closed, picture: None, ..self }
    }
}

/// A camera that replays the image files of a folder.
pub struct MockCamera {
    state: Lifecycle,
    cursor: usize,
    repeat: bool,
    folder: Option<ResourceFolder>,
    frames: Vec<String>,
    active: Option<Vec<u8>>,
    width: u32,
    height: u32,
}

impl View for MockCamera {
    type V = MockState;

    closed spec fn view(&self) -> MockState {
        MockState {
            lifecycle: self.state,
            cursor: self.cursor as int,
            repeat: self.repeat,
            folder: match self.folder {
                Some(folder) => Some(folder.location()),
                None => None,
            },
            folder_ready: match self.folder {
                Some(folder) => folder.is_ready(),
                None => false,
            },
            frames: name_views(self.frames@),
            picture: match self.active {
                Some(bytes) => Some(
                    Picture { width: self.width, height: self.height, bytes: bytes@ },
                ),
                None => None,
            },
        }
    }
}

impl Default for MockCamera {
    fn default() -> (r: Self)
        ensures
            r@ == MockState::created(),
    {
        MockCamera::new()
    }
}

impl MockCamera {
    /// A replay camera that was never initialized.
    pub fn new() -> (r: MockCamera)
        ensures
            r@ == MockState::created(),
            r@.wf(),
    {
        let r = MockCamera {
            state: Lifecycle::Uninitialized,
            cursor: 0,
            repeat: false,
            folder: None,
            frames: Vec::new(),
            active: None,
            width: 0,
            height: 0,
        };
        assert(r@.frames =~= Seq::empty());
        r
    }

    /// Fails the operation under way with `error` and leaves the camera in
    /// `state`, with no frame on offer.
    fn fail(&mut self, state: Lifecycle, error: HardwareError) -> (step: Step)
        ensures
            final(self)@ == (MockState { lifecycle: state, picture: None, ..old(self)@ }),
            step@ == (StepView::Failed {
                kind: error.kind(),
                message: error.message(),
                release: Seq::empty(),
            }),
    {
        self.state = state;
        self.active = None;
        Step::Failed { error, release: Vec::new() }
    }

    /// Fails the initialization with `error` and gives up everything that
    /// the refused configuration had set.
    fn refuse(&mut self, error: HardwareError) -> (step: Step)
        ensures
            final(self)@ == (MockState { lifecycle: Lifecycle::Failed, ..MockState::created() }),
            step@ == (StepView::Failed {
                kind: error.kind(),
                message: error.message(),
                release: Seq::empty(),
            }),
    {
        self.state = Lifecycle::Failed;
        self.cursor = 0;
        self.repeat = false;
        self.folder = None;
        self.frames = Vec::new();
        self.active = None;
        assert(self@.frames =~= Seq::empty());
        Step::Failed { error, release: Vec::new() }
    }

    /// Takes the decoded image as the frame on offer.
    fn read_frame(&mut self, image: DecodedImage) -> (step: Step)
        requires
            old(self)@.lifecycle == Lifecycle::Streaming,
        ensures
            (final(self)@, step@) == old(self)@.decoded(Ok(image)),
    {
        let encoding = Encoding::new();
        let checked = match encoding.frame_from_slice(
            image.data.as_slice(),
            image.width,
            image.height,
        ) {
            Ok(_) => Ok(()),
            Err(err) => Err(HardwareError::from_encoding(&err)),
        };
        match checked {
            Err(error) => self.fail(Lifecycle::Ready, error),
            Ok(()) => {
                self.width = image.width;
                self.height = image.height;
                self.active = Some(image.data);
                self.state = Lifecycle::Ready;
                Step::Frame
            },
        }
    }

    /// Takes the listing of the folder: the camera is ready with the sorted
    /// names, or fails with `InvalidSettings` where the folder is missing or
    /// could not be read.
    fn listed(&mut self, present: bool, names: Result<Vec<String>, String>) -> (step: Step)
        requires
            old(self)@.wf(),
            old(self)@.lifecycle == Lifecycle::Initializing,
        ensures
            final(self)@.wf(),
            old(self)@.listed(present, names, final(self)@, step@),
    {
        match self.folder.take() {
            None => self.refuse(HardwareError::NotReady),
            Some(folder) => match folder.confirm_existing(present) {
                Err(err) => {
                    let error = HardwareError::from_resource(&err);
                    self.refuse(error)
                },
                Ok(folder) => match folder.enumerate_files(names) {
                    Err(err) => {
                        let error = HardwareError::from_resource(&err);
                        self.refuse(error)
                    },
                    Ok(sorted) => {
                        self.folder = Some(folder);
                        self.frames = sorted;
                        self.cursor = 0;
                        self.active = None;
                        self.state = Lifecycle::Ready;
                        Step::Ready
                    },
                },
            },
        }
    }

    /// The request for the file that the read under way decodes.
    fn decode_request(&self) -> (step: Step)
        requires
            self@.wf(),
            self@.lifecycle == Lifecycle::Streaming,
        ensures
            step@ == StepView::Perform(RequestView::DecodeFile(self@.pending_path())),
    {
        match &self.folder {
            None => Step::Failed { error: HardwareError::NotReady, release: Vec::new() },
            Some(folder) => match folder.path(self.frames[self.cursor - 1].as_str()) {
                Err(_) => Step::Failed { error: HardwareError::NotReady, release: Vec::new() },
                Ok(path) => Step::Perform(Request::DecodeFile(path)),
            },
        }
    }

    /// The frame on offer: the one that the latest successful `next` fetched.
    /// It is there until the next call of `next` or `shutdown`.
    pub fn frame(&self) -> (r: Option<Frame<'_>>)
        ensures
            self@.wf() ==> (match self@.picture {
                Some(p) => r matches Some(f) && f.spec_width() == p.width && f.spec_height()
                    == p.height && f.bytes() == p.bytes,
                None => r is None,
            }),
            r matches Some(f) ==> self@.picture is Some,
    {
        match &self.active {
            None => None,
            Some(bytes) => match Encoding::new().frame_from_slice(
                bytes.as_slice(),
                self.width,
                self.height,
            ) {
                Ok(frame) => Some(frame),
                Err(_) => None,
            },
        }
    }
}

impl CameraLike for MockCamera {
    open spec fn lifecycle(&self) -> Lifecycle {
        self@.lifecycle
    }

    open spec fn wf(&self) -> bool {
        self@.wf()
    }

    fn initialize(&mut self, config: ConfigMap) -> (step: Step)
        ensures
            (final(self)@, step@) == old(self)@.initialize(config@),
    {
        if self.state != Lifecycle::Uninitialized {
            return Step::Failed { error: HardwareError::NotReady, release: Vec::new() };
        }
        match config.get_string("use_mock_folder") {
            Some(path) => {
                self.folder = Some(ResourceFolder::new(path.as_str()));
                self.repeat = config.flag("use_mock_repeat_frames");
                self.cursor = 0;
                self.state = Lifecycle::Initializing;
                Step::Perform(Request::ListFolder(path))
            },
            None => {
                self.state = Lifecycle::Ready;
                Step::Ready
            },
        }
    }

    fn shutdown(&mut self) -> (r: Result<Vec<Resource>, HardwareError>)
        ensures
            old(self)@.lifecycle != Lifecycle::Closed ==> (r matches Ok(release) && release@.len()
                == 0 && final(self)@ == old(self)@.closed()),
            old(self)@.lifecycle == Lifecycle::Closed ==> final(self)@ == old(self)@,
    {
        if self.state == Lifecycle::Closed {
            return Err(HardwareError::NotReady);
        }
        self.state = Lifecycle::Closed;
        self.active = None;
        Ok(Vec::new())
    }

    fn next(&mut self) -> (step: Step)
        ensures
            (final(self)@, step@) == old(self)@.next(),
    {
        if self.state != Lifecycle::Ready {
            return Step::Failed { error: HardwareError::NotReady, release: Vec::new() };
        }
        if self.cursor >= self.frames.len() {
            if self.repeat && self.frames.len() > 0 {
                self.cursor = 0;
            } else {
                return Step::Failed {
                    error: HardwareError::DeviceNoLongerAvailable(
                        String::from_str("Ran out of mock frames"),
                    ),
                    release: Vec::new(),
                };
            }
        }
        self.cursor = self.cursor + 1;
        self.active = None;
        self.state = Lifecycle::Streaming;
        self.decode_request()
    }

    fn resume(&mut self, response: Response) -> (step: Step)
        ensures
            old(self)@.lifecycle != Lifecycle::Initializing && old(self)@.lifecycle
                != Lifecycle::Streaming ==> final(self)@ == old(self)@,
            old(self)@.lifecycle == Lifecycle::Initializing ==> match response {
                Response::Listing { present, names } => old(self)@.listed(
                    present,
                    names,
                    final(self)@,
                    step@,
                ),
                _ => final(self)@ == old(self)@ && step@ == StepView::Perform(
                    RequestView::ListFolder(old(self)@.folder->0),
                ),
            },
            old(self)@.lifecycle == Lifecycle::Streaming ==> match response {
                Response::Decoded(result) => (final(self)@, step@) == old(self)@.decoded(result),
                _ => final(self)@ == old(self)@ && step@ == StepView::Perform(
                    RequestView::DecodeFile(old(self)@.pending_path()),
                ),
            },
    {
        match self.state {
            Lifecycle::Initializing => match response {
                Response::Listing { present, names } => self.listed(present, names),
                _ => match &self.folder {
                    Some(folder) => Step::Perform(Request::ListFolder(folder.location_text())),
                    None => Step::Failed { error: HardwareError::NotReady, release: Vec::new() },
                },
            },
            Lifecycle::Streaming => match response {
                Response::Decoded(Ok(image)) => self.read_frame(image),
                Response::Decoded(Err(DecodeError::Io(message))) => self.fail(
                    Lifecycle::Ready,
                    HardwareError::IoError(message),
                ),
                Response::Decoded(Err(DecodeError::Image(message))) => self.fail(
                    Lifecycle::Ready,
                    HardwareError::FailedToEncodeFrame(message),
                ),
                _ => self.decode_request(),
            },
            _ => Step::Failed { error: HardwareError::NotReady, release: Vec::new() },
        }
    }
}

} // verus!
