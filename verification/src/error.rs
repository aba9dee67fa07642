//! The errors decoding and projection can report.

use vstd::prelude::*;
use crate::init::{InitView, TypedInit};

verus! {

/// Everything that can go wrong between a foreign handle and a typed value.
#[derive(Debug, PartialEq)]
pub enum TableGenError {
    /// A bit value outside {0, 1}: foreign-side corruption or an unsupported
    /// encoding, never silently clamped.
    InvalidBitRange,
    /// An expected non-empty foreign buffer came back empty or null.
    NullPointer,
    /// A typed projection asked for a shape that does not match the value's
    /// variant; the rejected value rides along for diagnostics.
    IncorrectInitType(TypedInit),
}

/// The mathematical model of a `TableGenError`.
pub enum ErrorView {
    InvalidBitRange,
    NullPointer,
    IncorrectInitType(InitView),
}

impl View for TableGenError {
    type V = ErrorView;

    open spec fn view(&self) -> ErrorView {
        match self {
            TableGenError::InvalidBitRange => ErrorView::InvalidBitRange,
            TableGenError::NullPointer => ErrorView::NullPointer,
            TableGenError::IncorrectInitType(v) => ErrorView::IncorrectInitType(v@),
        }
    }
}

} // verus!
