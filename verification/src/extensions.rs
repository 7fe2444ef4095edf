//! The public matcher extension traits.

pub mod base;
pub mod eq;
pub mod iter;
pub mod partial_ord;
pub mod string;
