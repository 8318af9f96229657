//! Templates: the raw text slots, what compiling finds in them, and rendering.

pub mod compiled;
pub mod error;
pub mod fields;
pub mod grammar;
pub mod raw;
pub mod receipt;
pub mod render;
pub mod values;
