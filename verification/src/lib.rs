//! Generation of WGSL compute kernels for an image-feature-extraction
//! pipeline: a typed expression IR, Gaussian-convolution and
//! decision-forest kernel generators, and the dispatch plan that a host
//! executes against a GPU device.

pub mod expression;
pub mod floatbits;
pub mod forest;
pub mod gaussian;
pub mod pipeline;
pub mod shader;
pub mod text;
pub mod wgsl_types;
