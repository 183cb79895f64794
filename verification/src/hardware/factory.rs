//! The closed set of camera backends, and the factory that picks one by
//! configuration.

use super::error::HardwareError;
use super::ffmpeg_camera::{AvCamera, AvState};
use super::mock_camera::{flag_set, MockCamera, MockState, Picture};
use super::protocol::{CameraLike, Lifecycle, RequestView, Response, Step, StepView};
use crate::capture::session::Resource;
use crate::encoding::Frame;
use crate::resources::config_map::ConfigMap;
use vstd::prelude::*;

verus! {

/// A camera of one of the backends.
pub enum Camera {
    /// The replay backend.
    Mock(MockCamera),
    /// The hardware backend.
    Av(AvCamera),
}

impl Camera {
    /// The frame that the camera offers, if any.
    pub open spec fn picture(&self) -> Option<Picture> {
        match self {
            Camera::Mock(camera) => camera@.picture,
            Camera::Av(camera) => camera@.picture,
        }
    }

    /// The frame on offer: the one that the latest successful `next` fetched.
    /// It is there until the next call of `next` or `shutdown`.
    pub fn frame(&self) -> (r: Option<Frame<'_>>)
        ensures
            self.wf() ==> (match self.picture() {
                Some(p) => r matches Some(f) && f.spec_width() == p.width && f.spec_height()
                    == p.height && f.bytes() == p.bytes,
                None => r is None,
            }),
            r matches Some(f) ==> self.picture() is Some,
    {
        match self {
            Camera::Mock(camera) => camera.frame(),
            Camera::Av(camera) => camera.frame(),
        }
    }
}

impl CameraLike for Camera {
    open spec fn lifecycle(&self) -> Lifecycle {
        match self {
            Camera::Mock(camera) => camera.lifecycle(),
            Camera::Av(camera) => camera.lifecycle(),
        }
    }

    open spec fn wf(&self) -> bool {
        match self {
            Camera::Mock(camera) => camera.wf(),
            Camera::Av(camera) => camera.wf(),
        }
    }

    fn initialize(&mut self, config: ConfigMap) -> (step: Step)
        ensures
            match (*old(self), *final(self)) {
                (Camera::Mock(before), Camera::Mock(after)) => (after@, step@)
                    == before@.initialize(config@),
                (Camera::Av(before), Camera::Av(after)) => (after@, step@) == before@.initialize(
                    config@,
                ),
                _ => false,
            },
    {
        match self {
            Camera::Mock(camera) => camera.initialize(config),
            Camera::Av(camera) => camera.initialize(config),
        }
    }

    fn shutdown(&mut self) -> (r: Result<Vec<Resource>, HardwareError>)
        ensures
            match (*old(self), *final(self)) {
                (Camera::Mock(before), Camera::Mock(after)) => if before@.lifecycle
                    != Lifecycle::Closed {
                    r matches Ok(release) && release@.len() == 0 && after@ == before@.closed()
                } else {
                    after@ == before@
                },
                (Camera::Av(before), Camera::Av(after)) => if before@.lifecycle
                    != Lifecycle::Closed {
                    r matches Ok(release) && release@ == before@.release() && after@
                        == before@.closed()
                } else {
                    after@ == before@
                },
                _ => false,
            },
    {
        match self {
            Camera::Mock(camera) => camera.shutdown(),
            Camera::Av(camera) => camera.shutdown(),
        }
    }

    fn next(&mut self) -> (step: Step)
        ensures
            match (*old(self), *final(self)) {
                (Camera::Mock(before), Camera::Mock(after)) => (after@, step@) == before@.next(),
                (Camera::Av(before), Camera::Av(after)) => (after@, step@) == before@.next(),
                _ => false,
            },
    {
        match self {
            Camera::Mock(camera) => camera.next(),
            Camera::Av(camera) => camera.next(),
        }
    }

    fn resume(&mut self, response: Response) -> (step: Step)
        ensures
            match (*old(self), *final(self)) {
                (Camera::Mock(before), Camera::Mock(after)) => if before@.lifecycle
                    == Lifecycle::Initializing {
                    match response {
                        Response::Listing { present, names } => before@.listed(
                            present,
                            names,
                            after@,
                            step@,
                        ),
                        _ => after@ == before@ && step@ == StepView::Perform(
                            RequestView::ListFolder(before@.folder->0),
                        ),
                    }
                } else if before@.lifecycle == Lifecycle::Streaming {
                    match response {
                        Response::Decoded(result) => (after@, step@) == before@.decoded(result),
                        _ => after@ == before@ && step@ == StepView::Perform(
                            RequestView::DecodeFile(before@.pending_path()),
                        ),
                    }
                } else {
                    after@ == before@
                },
                (Camera::Av(before), Camera::Av(after)) => (after@, step@) == before@.resume(
                    response,
                ),
                _ => false,
            },
    {
        match self {
            Camera::Mock(camera) => camera.resume(response),
            Camera::Av(camera) => camera.resume(response),
        }
    }
}

/// Makes the camera that a configuration asks for.
pub struct CameraFactory {
    config: ConfigMap,
}

impl CameraFactory {
    /// The configuration that cameras are made from.
    pub closed spec fn settings(&self) -> Map<Seq<char>, Seq<char>> {
        self.config@
    }

    /// A factory for cameras configured by `config`.
    pub fn new(config: ConfigMap) -> (r: CameraFactory)
        ensures
            r.settings() == config@,
    {
        CameraFactory { config }
    }

    /// Makes the camera and starts to initialize it: the replay backend where
    /// the flag `use_mock` is set, the hardware backend otherwise. The step is
    /// the camera's answer to `initialize`.
    pub fn create_camera(&self) -> (r: (Camera, Step))
        ensures
            r.0.wf(),
            flag_set(self.settings(), "use_mock"@) ==> (r.0 matches Camera::Mock(camera) && (
                camera@,
                r.1@,
            ) == MockState::created().initialize(self.settings())),
            !flag_set(self.settings(), "use_mock"@) ==> (r.0 matches Camera::Av(camera) && (
                camera@,
                r.1@,
            ) == AvState::created().initialize(self.settings())),
    {
        let mut camera = if self.use_mock() {
            Camera::Mock(MockCamera::new())
        } else {
            Camera::Av(AvCamera::new())
        };
        let step = camera.initialize(self.config.clone());
        (camera, step)
    }

    /// Whether the configuration asks for the replay backend.
    pub fn use_mock(&self) -> (r: bool)
        ensures
            r == flag_set(self.settings(), "use_mock"@),
    {
        self.config.flag("use_mock")
    }
}

} // verus!
