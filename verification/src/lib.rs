//! Client-side logic for a motion-capture data stream: classification of the
//! server's status codes, the connect-and-retry policy, and the decoding of a
//! frame into named subjects with a position and an orientation.
//!
//! The native tracking client is not called from here. The connecting and
//! the decoding of a frame are written as state machines: each names the
//! native call to make next and takes the call's answer back.
//!
//! Scalars of a pose are carried as IEEE 754 binary64 bit patterns in a `u64`,
//! exactly as the server delivered them. The library moves and reorders these
//! words and never does arithmetic on them.
pub mod connect;
pub mod frame;
pub mod mock;
pub mod name;
pub mod rotation;
pub mod status;

pub use connect::{ConnectAttempts, ConnectProgress, MAX_CONNECT_RETRIES, MAX_CONNECT_TIMEOUT};
pub use frame::{FrameDecoder, HasViconHardware, Progress, Reply, Request, ViconSubject};
pub use mock::{FrameAnswers, MockVicon, SubjectAnswers};
pub use rotation::{OutputRotation, RotationType, ViconRotationType};
pub use status::{ViconError, ViconSdkStatus};
