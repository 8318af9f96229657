//! Receipt templates: placeholders are found in the text slots of a raw
//! template, replaced by the values of one build, and the rendered texts are
//! checked into a receipt.

pub mod api;
pub mod cli;
pub mod functions;
pub mod laws;
pub mod model;
pub mod report;
pub mod state;
pub mod template;
pub mod text;
