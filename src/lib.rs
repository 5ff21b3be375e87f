//! A command session with a laser-projection DAC: commands are queued in a batch,
//! written in order, and each response is checked against the command it answers.
pub mod device;
pub mod protocol;
pub mod stream;

pub use device::{Addressed, Dac, DeviceStatus, Point};
pub use stream::{
    Action, CapacityError, CommandQueue, CommunicationError, Event, QueuedCommand, Stream,
    SubmitError, SubmitErrorKind, Submission,
};
