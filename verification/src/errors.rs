//! The error taxonomy of the backend: a text run that cannot be measured,
//! or a GPU submission that fails during present. Every other primitive
//! operation is infallible.

use vstd::prelude::*;

use crate::style::LayoutError;

verus! {

/// GPU submission of a frame's draw list failed.
#[derive(Clone, Debug, PartialEq, Eq)]
pub struct EngineError {
    pub message: String,
}

/// An error surfaced by a backend operation.
#[derive(Clone, Debug, PartialEq, Eq)]
pub enum DrawError {
    /// The font layout collaborator could not measure a text run;
    /// surfaced by text drawing, never retried.
    FontLayout(LayoutError),
    /// The rendering engine rejected a frame during present; the frame is
    /// dropped, not replayed.
    EngineSubmission(EngineError),
}

} // verus!
