//! The fixed architecture of the network, and shape validation for an
//! externally supplied weight bundle.
//!
//! The network is four dense layers, 784 -> 500 -> 300 -> 100 -> 10, with a
//! rectified-linear activation on the first three and a raw linear output on
//! the last. The evaluator is a uniform fold over a sequence of layer
//! descriptors, each carrying its shape and activation tag; the host performs
//! the floating-point affine transforms in the order this plan gives.

use vstd::prelude::*;
use crate::InferenceError;
use crate::image::INPUT_SIZE;

verus! {

/// Width of the first hidden layer.
pub const LAYER_1: usize = 500;
/// Width of the second hidden layer.
pub const LAYER_2: usize = 300;
/// Width of the third hidden layer.
pub const LAYER_3: usize = 100;
/// Number of digit classes, the width of the output layer.
pub const NUM_DIGITS: usize = 10;
/// Number of dense layers in the network.
pub const NUM_LAYERS: usize = 4;

/// What a layer applies elementwise after its affine transform.
#[derive(Clone, Copy, Debug, PartialEq, Eq, Structural)]
pub enum Activation {
    /// Rectified linear: `max(0, z)`.
    Relu,
    /// No activation: the raw affine output.
    Identity,
}

/// One dense layer: a `rows x cols` weight matrix, a bias vector of length
/// `cols`, and the activation applied to the result.
#[derive(Clone, Copy, Debug, PartialEq, Eq, Structural)]
pub struct LayerShape {
    pub rows: usize,
    pub cols: usize,
    pub activation: Activation,
}

/// The fixed plan of the four layers, in evaluation order.
pub open spec fn spec_layer_plan() -> Seq<LayerShape> {
    seq![
        LayerShape { rows: INPUT_SIZE, cols: LAYER_1, activation: Activation::Relu },
        LayerShape { rows: LAYER_1, cols: LAYER_2, activation: Activation::Relu },
        LayerShape { rows: LAYER_2, cols: LAYER_3, activation: Activation::Relu },
        LayerShape { rows: LAYER_3, cols: NUM_DIGITS, activation: Activation::Identity },
    ]
}

/// Builds the layer plan the evaluator folds over.
pub fn layer_plan() -> (r: Vec<LayerShape>)
    ensures
        r@ == spec_layer_plan(),
{
    let mut r: Vec<LayerShape> = Vec::new();
    r.push(LayerShape { rows: INPUT_SIZE, cols: LAYER_1, activation: Activation::Relu });
    r.push(LayerShape { rows: LAYER_1, cols: LAYER_2, activation: Activation::Relu });
    r.push(LayerShape { rows: LAYER_2, cols: LAYER_3, activation: Activation::Relu });
    r.push(LayerShape { rows: LAYER_3, cols: NUM_DIGITS, activation: Activation::Identity });
    assert(r@ =~= spec_layer_plan());
    r
}

/// The plan is well formed: four layers whose shapes chain (each layer's
/// column count is the next layer's row count), taking the 784-length
/// feature vector to the 10 class scores, with a rectified-linear activation
/// on every layer but the last, which is linear.
pub proof fn lemma_layer_plan_well_formed()
    ensures
        spec_layer_plan().len() == NUM_LAYERS,
        spec_layer_plan()[0].rows == INPUT_SIZE,
        spec_layer_plan()[NUM_LAYERS - 1].cols == NUM_DIGITS,
        forall|i: int|
            0 <= i < NUM_LAYERS - 1 ==> spec_layer_plan()[i].cols == spec_layer_plan()[i + 1].rows,
        forall|i: int|
            0 <= i < NUM_LAYERS - 1 ==> spec_layer_plan()[i].activation == Activation::Relu,
        spec_layer_plan()[NUM_LAYERS - 1].activation == Activation::Identity,
{
}

/// The lengths of the eight flat arrays of a weight bundle, in layer order:
/// four weight matrices `w0..w3` and four bias vectors `b0..b3`.
#[derive(Clone, Copy, Debug, PartialEq, Eq, Structural)]
pub struct BundleDims {
    pub w0: usize,
    pub b0: usize,
    pub w1: usize,
    pub b1: usize,
    pub w2: usize,
    pub b2: usize,
    pub w3: usize,
    pub b3: usize,
}

/// A bundle matches the architecture exactly: each weight array's flat
/// length is rows times columns of its layer, each bias array's length is
/// its layer's column count.
pub open spec fn dims_valid(d: BundleDims) -> bool {
    &&& d.w0 == INPUT_SIZE * LAYER_1
    &&& d.b0 == LAYER_1
    &&& d.w1 == LAYER_1 * LAYER_2
    &&& d.b1 == LAYER_2
    &&& d.w2 == LAYER_2 * LAYER_3
    &&& d.b2 == LAYER_3
    &&& d.w3 == LAYER_3 * NUM_DIGITS
    &&& d.b3 == NUM_DIGITS
}

/// Checks a weight bundle's array lengths against the fixed shapes, before
/// any reshaping is attempted. Succeeds exactly on a bundle whose eight
/// lengths all match; any mismatch is a structural error.
pub fn validate_dims(d: &BundleDims) -> (r: Result<(), InferenceError>)
    ensures
        match r {
            Ok(()) => dims_valid(*d),
            Err(e) => !dims_valid(*d) && e == InferenceError::ShapeMismatch,
        },
{
    if d.w0 == INPUT_SIZE * LAYER_1 && d.b0 == LAYER_1 && d.w1 == LAYER_1 * LAYER_2 && d.b1
        == LAYER_2 && d.w2 == LAYER_2 * LAYER_3 && d.b2 == LAYER_3 && d.w3 == LAYER_3
        * NUM_DIGITS && d.b3 == NUM_DIGITS {
        Ok(())
    } else {
        Err(InferenceError::ShapeMismatch)
    }
}

/// Bundle validation agrees with the layer plan: the eight lengths are
/// valid exactly when, for every layer of the plan, the weight length is
/// that layer's rows times columns and the bias length its column count.
pub proof fn lemma_dims_match_plan(d: BundleDims)
    ensures
        dims_valid(d) <==> {
            let plan = spec_layer_plan();
            &&& d.w0 == plan[0].rows * plan[0].cols
            &&& d.b0 == plan[0].cols
            &&& d.w1 == plan[1].rows * plan[1].cols
            &&& d.b1 == plan[1].cols
            &&& d.w2 == plan[2].rows * plan[2].cols
            &&& d.b2 == plan[2].cols
            &&& d.w3 == plan[3].rows * plan[3].cols
            &&& d.b3 == plan[3].cols
        },
{
}

} // verus!
