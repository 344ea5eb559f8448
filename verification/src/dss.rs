//! Single-shot requests for the model optimization, calibration and
//! quantization endpoints.  Unlike a compile request these are stateless:
//! one POST, one response, no polling.

use vstd::prelude::*;

verus! {

/// A request to optimize a model.
pub struct OptimizeRequest {
    pub filename: String,
    pub source: Vec<u8>,
}

/// A request to build a calibration model.
pub struct CalibrateRequest {
    pub filename: String,
    pub source: Vec<u8>,
    pub input_tensors: Vec<String>,
}

/// One tensor's dynamic range.  The bounds are 32-bit floats on the wire;
/// the client never computes with them, so they are held as the JSON number
/// literals to embed, and the shell that formats floats produces them.
pub struct DynamicRange {
    pub tensor: String,
    pub min: String,
    pub max: String,
}

/// A request to quantize a model: the input tensor names and, for each
/// tensor, its dynamic range.
pub struct QuantizeRequest {
    pub filename: String,
    pub source: Vec<u8>,
    pub input_tensors: Vec<String>,
    pub dynamic_ranges: Vec<DynamicRange>,
}

} // verus!
