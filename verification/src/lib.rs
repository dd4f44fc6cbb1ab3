//! Frame extraction for an interactive video editor: the decisions, without
//! the decoding.
//!
//! The library plans and judges; it opens no file and decodes no frame. A
//! caller probes a container and hands over what it found ([`probe`]), asks
//! which frame to look for ([`extract`]), reports the frames that its decoder
//! hands out and is told which to keep and when to stop ([`scan`]), and has
//! the chosen picture compressed and written as text ([`encode`]). Batches of
//! thumbnails are planned and gathered in [`thumbnails`]; the snapshots of
//! opened videos are kept in [`registry`]. [`melt`] and [`assets`] hold what
//! the render tool and the asset store need decided for them.
//!
//! Times are whole microseconds throughout; rates and time bases are ratios
//! of integers.

pub mod arith;
pub mod assets;
pub mod encode;
pub mod error;
pub mod extract;
pub mod melt;
pub mod probe;
pub mod registry;
pub mod scan;
pub mod table;
pub mod text;
pub mod thumbnails;

pub use assets::{AssetInfo, FileResult};
pub use encode::encode_frame_as_base64_jpeg;
pub use error::VideoError;
pub use extract::{
    get_first_frame, get_frame_at_time, get_frame_at_time_with_quality, FrameRequest,
};
pub use melt::{
    cancel_melt_render, check_melt, run_melt_raw, run_melt_render, validate_mlt_xml,
    MeltCheckResult, MeltRawResult, MeltState, RenderOptions, RenderResult, ValidateResult,
};
pub use probe::{get_video_info, ProbeOutcome, Rational, StreamFacts, VideoInfo};
pub use registry::{close_video, open_video, HandleRegistry, VideoHandle};
pub use scan::{FrameScan, FrameVerdict, ScanPhase};
pub use thumbnails::{
    collect_thumbnails, generate_thumbnails, generate_thumbnails_with_options,
    get_thumbnail_at_percent,
};
