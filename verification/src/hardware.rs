//! Camera sessions: one interface with an explicit lifecycle over a closed set
//! of backends, the hardware device and the replay of stored images.
//!
//! A camera does no input or output of its own. Each operation answers with a
//! [`Step`]: a request that the driver carries out and reports back through
//! `resume`, or the operation's result.

pub mod error;
pub mod factory;
pub mod ffmpeg_camera;
pub mod mock_camera;
pub mod protocol;
pub mod replay_laws;
pub mod session_laws;

pub use self::error::{HardwareError, HardwareFault};
pub use self::factory::{Camera, CameraFactory};
pub use self::ffmpeg_camera::AvCamera;
pub use self::mock_camera::MockCamera;
pub use self::protocol::{
    CameraLike, DecodeError, DecodedImage, Lifecycle, Operation, Request, RequestView, Response,
    Step, StepView,
};
