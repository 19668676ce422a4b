//! Inference support for a fixed-topology multilayer perceptron that
//! classifies a 28x28 handwritten-digit image into one of ten digit classes.
//!
//! This crate owns the decision logic of the pipeline: converting raw
//! image bytes into the binary feature vector the network was trained on,
//! validating the shapes of an externally supplied weight bundle, and
//! describing the fixed layer architecture (widths and activation tags).
//! The floating-point matrix arithmetic itself is performed by the host
//! around this crate, driven by the layer plan verified here.

use vstd::prelude::*;

pub mod image;
pub mod network;

verus! {

/// Why a call was rejected: the weight bundle's arrays do not match the
/// fixed layer shapes, or the image byte sequence has the wrong length.
#[derive(Clone, Copy, Debug, PartialEq, Eq, Structural)]
pub enum InferenceError {
    ShapeMismatch,
    ImageLength,
}

} // verus!
