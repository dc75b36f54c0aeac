//! The points at which the library reads the clock, draws random
//! identifiers and renders values as text.

pub mod clock;
pub mod ids;
pub mod json;
pub mod text;
