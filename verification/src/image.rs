//! The pixel normalizer: raw 4-channel image bytes to the network's input
//! features.
//!
//! The source image is pure black-and-white, so only the first channel of
//! each pixel is read, and a hard threshold reduces it to a binary value.
//! The normalization `1.0 - raw / 255.0` used by the network maps a
//! thresholded channel to exactly `1.0` (background, below the threshold)
//! or `0.0` (ink, at or above it); the feature vector is therefore binary,
//! and this module computes it exactly, as `1` or `0`, one unit per full
//! intensity. The host widens those units to its numeric type unchanged.

use vstd::prelude::*;
use crate::InferenceError;

verus! {

/// Width of the input image, in pixels.
pub const IMG_WIDTH: usize = 28;
/// Height of the input image, in pixels.
pub const IMG_HEIGHT: usize = 28;
/// Channels per pixel in the raw image encoding (red, green, blue, alpha).
pub const RGBA: usize = 4;
/// Number of pixels, and so the length of the feature vector.
pub const INPUT_SIZE: usize = IMG_WIDTH * IMG_HEIGHT;
/// Exact length a raw image byte sequence must have.
pub const IMAGE_BYTES: usize = IMG_WIDTH * IMG_HEIGHT * RGBA;
/// A channel value at or above this is treated as full ink.
pub const THRESHOLD: u8 = 127;

/// The normalized feature of pixel `i`: `1` when the first channel byte of
/// the pixel is below the threshold (background), `0` when at or above it
/// (ink), matching the polarity the network was trained on.
pub open spec fn pixel_feature(data: Seq<u8>, i: int) -> u8 {
    if data[RGBA * i] >= THRESHOLD {
        0u8
    } else {
        1u8
    }
}

/// The whole feature vector of a well-sized image.
pub open spec fn features_of(data: Seq<u8>) -> Seq<u8> {
    Seq::new(INPUT_SIZE as nat, |i: int| pixel_feature(data, i))
}

/// Converts raw image bytes to the binary feature vector, reading the first
/// channel of each of the 784 pixels. Rejects any input that is not exactly
/// 3136 bytes long, before any indexing.
pub fn get_pixels(data: &Vec<u8>) -> (r: Result<Vec<u8>, InferenceError>)
    ensures
        match r {
            Ok(v) => data@.len() == IMAGE_BYTES && v@ == features_of(data@),
            Err(e) => data@.len() != IMAGE_BYTES && e == InferenceError::ImageLength,
        },
{
    if data.len() != IMAGE_BYTES {
        return Err(InferenceError::ImageLength);
    }
    let mut v: Vec<u8> = Vec::new();
    let mut i: usize = 0;
    while i < INPUT_SIZE
        invariant
            data@.len() == IMAGE_BYTES,
            i <= INPUT_SIZE,
            v@.len() == i,
            forall|j: int| 0 <= j < i ==> v@[j] == pixel_feature(data@, j),
        decreases INPUT_SIZE - i,
    {
        let c = data[i * RGBA];
        let f: u8 = if c >= THRESHOLD {
            0
        } else {
            1
        };
        v.push(f);
        i += 1;
    }
    assert(v@ =~= features_of(data@));
    Ok(v)
}

/// Every feature is binary, `0` or `1`: one unit per full intensity, so
/// the normalized values lie in the unit interval.
pub proof fn lemma_features_binary(data: Seq<u8>)
    ensures
        features_of(data).len() == INPUT_SIZE,
        forall|i: int|
            0 <= i < INPUT_SIZE ==> (features_of(data)[i] == 0 || features_of(data)[i] == 1),
{
}

/// Threshold monotonicity: when exactly one pixel's channel byte crosses
/// from just below the threshold to the threshold, that pixel's feature
/// flips from `1` to `0`, and no other pixel's feature changes.
pub proof fn lemma_threshold_flip(a: Seq<u8>, b: Seq<u8>, p: int)
    requires
        a.len() == IMAGE_BYTES,
        b.len() == IMAGE_BYTES,
        0 <= p < INPUT_SIZE,
        a[RGBA * p] == 126,
        b[RGBA * p] == 127,
        forall|k: int| 0 <= k < IMAGE_BYTES && k != RGBA * p ==> a[k] == b[k],
    ensures
        pixel_feature(a, p) == 1,
        pixel_feature(b, p) == 0,
        forall|i: int|
            0 <= i < INPUT_SIZE && i != p ==> features_of(a)[i] == features_of(b)[i],
{
    assert forall|i: int| 0 <= i < INPUT_SIZE && i != p implies features_of(a)[i]
        == features_of(b)[i] by {
        assert(a[RGBA * i] == b[RGBA * i]);
    }
}

} // verus!
