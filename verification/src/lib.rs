//! Verified core of a frame-streaming pipeline: fixed-size raw RGB frames are
//! pulled from an external decode process (or converted from a packed camera
//! format), run through a cadence-controlled inference policy, and forwarded to
//! an external encode process or a display sink. This crate holds the logic:
//! byte-buffer sizing, the colorspace transform, stream classification,
//! subprocess argument construction, progress/ETA arithmetic and rendering,
//! and the per-frame driver state machine. The OS work (pipes, subprocesses,
//! the camera, the display) lives outside it.

pub mod bridge;
pub mod color;
pub mod decode;
pub mod driver;
pub mod errors;
pub mod frame;
pub mod probe;
pub mod progress;
pub mod prompt;
pub mod textfmt;
