//! Decoding and rendering of constant-expression records of a C-program
//! analysis dictionary.
//!
//! A dictionary stores each constant as a record of text tags and integer
//! arguments. [`constant::ConstantRecord`] reads such a record as one kind of
//! constant (integer, narrow string, wide string or character), gives its
//! typed values and renders it as text. [`laws`] states what holds of every
//! record.

pub mod constant;
pub mod decimal;
pub mod error;
pub mod join;
pub mod laws;
pub mod record;
pub mod render;
