//! Gamma-encoded pixels to linear light.
//!
//! Averaging or blending pixels is only correct in linear light, so images are
//! linearized before they are compared or resampled. This crate builds the
//! lookup table of a component encoding from the gamma transfer function and
//! maps pixels of the common layouts through it, premultiplying colour by
//! alpha wherever a layout has alpha.
//!
//! Linear light is a matter of numbers with fractions. The crate is generic
//! over them: the caller brings an [`Arithmetic`], six operations on a number
//! type of its choice, and the crate decides what is computed from what. That
//! is what is proved here: the constants and the two segments of the transfer
//! function, that a table has one entry per encodable value, that no lookup
//! leaves the table, which table entries and which alpha make each output
//! field, and that a batch keeps the length and order of its input.
pub mod arithmetic;
pub mod batch;
pub mod component;
pub mod laws;
pub mod pixel;
pub mod transfer;

pub use arithmetic::Arithmetic;
pub use batch::{linearize_all, ToGLU, ToRGBAPLU};
pub use component::GammaComponent;
pub use pixel::{GammaPixel, Grey, GreyAlpha, BGR, BGRA, RGB, RGBA, RGBAPLU};
