//! Conversion between spreadsheet workbooks and a compact binary interchange
//! form.
//!
//! The crate holds the canonical data model for spreadsheet content, the
//! header-aware reader logic that turns raw cell grids into that model, the
//! writer logic that turns write specifications into workbook files, and the
//! binary codec that carries the model across a host boundary as a byte
//! buffer.

pub mod codec;
pub mod error;
pub mod model;
pub mod reader;
pub mod writer;
