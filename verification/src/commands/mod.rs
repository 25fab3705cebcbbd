//! What the host's commands answer, computed from plain values.
//!
//! A command reads its arguments, asks one of these functions, and hands the
//! answer to the user interface. Nothing here touches the window system or
//! the network, and the machine is asked one thing only: how many processors
//! it has.

pub mod ai;
pub mod basic;
pub mod capture;
pub mod clips;
pub mod system;

pub use ai::{generate_metadata, list_ai_models, AIModel, Metadata};
pub use basic::{backend_api_result, backend_api_url, greet, ApiOutcome, SystemInfo};
pub use capture::{get_capture_sources, CaptureSource};
pub use clips::{get_clip, list_clips, Clip};
