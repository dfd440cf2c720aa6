//! Capture of timestamped slot-status and account-mutation events, one
//! append-only buffer per monitored endpoint.

pub mod buffer;
pub mod record;
pub mod status;

pub use buffer::{BufferFraction, EndpointData};
pub use record::{AccountUpdate, SlotUpdate};
pub use status::SlotStatus;
