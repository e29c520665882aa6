//! Conversion of documents between JSON, TOML and YAML.
//!
//! A document is parsed into the value tree of its own grammar and can then be
//! rendered as the value tree of another one.

pub mod codecs;
pub mod error;
pub mod markup;
pub mod transcoder;

pub use error::Error;
pub use markup::Markup;
pub use transcoder::{parse, Format, Transcoder};
