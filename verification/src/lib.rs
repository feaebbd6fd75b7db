//! Normalisation and presentation of book metadata returned by a public
//! book catalogue: request addresses, record extraction from the three
//! response shapes, text rendering, and random title selection.

pub mod command;
pub mod error;
pub mod json;
pub mod laws;
pub mod normalize;
pub mod present;
pub mod query;
pub mod record;
pub mod select;
pub mod text;
