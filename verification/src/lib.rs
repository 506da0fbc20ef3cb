//! A video frame-interpolation and re-encoding pipeline: command-line
//! parsing, pipeline configuration and the planning of each stage, with the
//! process launching left to the caller.

pub mod text;
pub mod fp;
pub mod fs;
pub mod pipeline;
pub mod archive;
pub mod cli;
pub mod ffmpeg;
pub mod python;

pub use cli::{parse_args, ParsedArgs};
