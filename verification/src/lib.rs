//! Structure and bookkeeping of a small dense feed-forward neural network:
//! activation and loss selection rules, the layer architecture of a network,
//! the ONNX graph layout it is exported as, the MNIST IDX data format and the
//! order in which training samples are batched.

pub mod activation;
pub mod names;
pub mod loss;
pub mod architecture;
pub mod onnx;
pub mod idx;
pub mod batching;

pub use crate::activation::Activation;
pub use crate::architecture::{Architecture, ArchitectureError, LayerShape};
pub use crate::loss::Loss;
