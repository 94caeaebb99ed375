//! The error taxonomy of the library. Every error is terminal for the
//! operation that raised it; nothing is retried internally.

use vstd::prelude::*;

verus! {

/// The failures the read, write and codec pipelines can report. The string
/// payloads carry the diagnostic of the underlying codec or file library.
#[derive(Debug, Clone, PartialEq, Eq)]
pub enum ExcelError {
    /// The workbook file is missing, unreadable, or not a valid container.
    Open(String),
    /// The workbook has zero sheets (header read only).
    NoWorksheets,
    /// The requested sheet name is absent (single-sheet read only).
    SheetNotFound,
    /// A worksheet's cell range cannot be enumerated.
    RangeRead(String),
    /// Sheet-name validation, cell write, or save failure during a write.
    Write(String),
    /// The binary codec rejected the input bytes.
    Decode(String),
    /// The binary codec failed to encode (codec-internal constraint).
    Encode(String),
}

} // verus!
