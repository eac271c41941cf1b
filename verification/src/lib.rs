//! Evaluation of the component-transfer filter primitive over premultiplied
//! raster buffers, together with the sizing decisions of the raster converter
//! and the decoding of `data:` URLs.
//!
//! Real numbers are carried by their bit patterns ([`number::Number`]). The
//! library computes with them through an [`arithmetic::Arithmetic`] that the
//! caller provides.

pub mod number;
pub mod arithmetic;
pub mod text;
pub mod region;
pub mod surface;
pub mod transfer;
pub mod evaluator;
pub mod context;
pub mod node;
pub mod component_transfer;
pub mod convert;
pub mod data_uri;
