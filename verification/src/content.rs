//! Content that can carry annotations.

pub mod text;
