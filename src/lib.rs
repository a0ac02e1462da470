//! Shape-checked layer descriptions and the activation lookup table of a
//! small quantized neural-inference kernel (dense and GRU layers).

pub mod activation;
pub mod dense;
pub mod error;
pub mod gru;
pub mod table;

pub use activation::Activation;
pub use dense::DenseLayer;
pub use error::LayerError;
pub use gru::{Gate, GruLayer, MAX_NEURONS};
