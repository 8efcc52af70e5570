//! Batch conversion of video files to audio: format catalogue, file
//! discovery, output path resolution, tool invocation planning and
//! progress aggregation, each with a verified contract.

pub mod audio_format;
pub mod batch;
pub mod config;
pub mod error;
pub mod file_processor;
pub mod paths;
pub mod text;
pub mod user_interface;

pub use audio_format::AudioFormat;
pub use batch::{BatchTally, ProgressEvent};
pub use config::{Args, CliAudioFormat, Config, RuntimeConfig};
pub use error::{Result, VideoToAudioError};
pub use file_processor::{ConversionPlan, FileProcessor, WalkEntry};
pub use user_interface::UserInterface;
