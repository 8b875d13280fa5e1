//! A single-shot barcode scanner's frame-processing pipeline.
//!
//! A live capture device emits an unbounded stream of video frames; a serial
//! delivery queue hands each frame, one at a time and in arrival order, to
//! exactly one of three interchangeable detection backends; on the first
//! decoded payload the run ends and the payload is reported. This crate holds
//! the verified core of that pipeline: the backends' decision logic over the
//! values the capture collaborator reports, the frame counter, the shared
//! termination policy, and the configuration rule that exactly one backend is
//! active. The capture graph itself (device discovery, the dispatch queue,
//! the delegate objects) is platform glue and lives outside this crate; it
//! hands the library plain values and acts on the outcomes it gets back.

pub mod backend;
pub mod config;
pub mod counter;
pub mod frame;
pub mod pipeline;
pub mod utils;

pub use backend::Backend;
pub use backend::FatalError;
pub use config::BackendSelection;
pub use config::ConfigError;
pub use counter::FrameCounter;
pub use frame::DetectionResult;
pub use frame::Frame;
pub use pipeline::Pipeline;
pub use pipeline::RunOutcome;
pub use pipeline::SessionState;
pub use pipeline::Step;
