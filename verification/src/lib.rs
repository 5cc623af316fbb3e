//! Remote-control client logic for a DAB multiplexer: request framing, reply
//! decoding, flattening of the nested parameter tree and statistics parsing,
//! together with the settings model of the user interface.

pub mod config;
pub mod document;
pub mod error;
pub mod flatten_laws;
pub mod json;
pub mod page;
pub mod params;
pub mod stats;
pub mod text;
pub mod transport;
