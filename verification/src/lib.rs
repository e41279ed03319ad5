//! Initialization strategies for the trainable tensors of a neural network.
//!
//! An [`initializer::Initializer`] names a scheme (constant fill, uniform or
//! normal draws, Kaiming, Xavier/Glorot). Given a shape and the fans of a layer
//! it decides what a tensor backend is to be asked for: the
//! [`request::Request`]. The parameters of a request are
//! [`quantity::Quantity`] values, formulas over the scalars the caller gave
//! and the fans; [`request::Request::resolve`] computes them in an arithmetic
//! that the caller hands in. The library itself is generic in the scalar type
//! and never computes with it.
pub mod exact;
pub mod fans;
pub mod initializer;
pub mod laws;
pub mod quantity;
pub mod request;
