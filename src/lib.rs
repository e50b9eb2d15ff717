//! Capture of raw keyboard and mouse input: decoding of raw reports into
//! key and button transitions, the decisions of the capture window and its
//! message loop, and the channel that hands events to consumers.

pub mod event;
pub mod report;
pub mod producer;
pub mod channel;
pub mod registrar;
pub mod window;

pub use event::{mouse_name, Event, Input, KeyState};
pub use report::{decode, decode_batch, RawReport};
pub use channel::{event_channel, forward, ready_event, Receiver, RecvFailure};
pub use producer::Producer;
pub use registrar::{CaptureError, DeviceRequest};
