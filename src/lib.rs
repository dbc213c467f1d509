//! Capture-stream bookkeeping for a native audio boundary: callback slots,
//! a registry of live streams under monotonic handles, device and format
//! selection, and the error taxonomy reported across the boundary.
pub mod callbacks;
pub mod devices;
pub mod error;
pub mod laws;
pub mod lifecycle;
pub mod registry;
pub mod service;
pub mod text;

pub use callbacks::CallbackSlots;
pub use devices::{ConfigRange, SampleFormat};
pub use error::{AudioError, BackendStep, BadArgument};
pub use lifecycle::{open_input_stream, pause_stream, start_stream};
pub use registry::{StreamConfig, StreamEntry, StreamRegistry};
pub use service::{deinit, status, Status};
pub use text::boundary_text;
