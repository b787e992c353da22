//! A small feedforward neural-network engine: layers that compose into
//! chains with a flat parameter layout, and a model that trains its weight
//! matrices by backpropagation and mini-batch gradient descent.

pub mod activations;
pub mod fixed;
pub mod initializers;
pub mod layers;
pub mod losses;
pub mod matrix;
pub mod model;
pub mod optimizers;
pub mod scalar;

pub use fixed::Fixed;
pub use matrix::Matrix;
pub use model::Model;
pub use scalar::Scalar;
