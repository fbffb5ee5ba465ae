//! The KMS side: picking a display, laying out scanout buffers, and presenting frames.

use vstd::prelude::*;

pub mod pacing;
pub mod pick;
pub mod ppm;
pub mod present;
pub mod scanout;
pub mod setup;

use crate::errors::{annotate, annotated_message, AnnotatedError, FailureKind, IoFailure, VT_ADVICE};

verus! {

/// The display that was picked: a connector and the size and refresh rate of its mode.
#[derive(Clone, Copy, Debug, PartialEq, Eq, Structural)]
pub struct DrmPick {
    pub connector_id: u32,
    pub width: u32,
    pub height: u32,
    pub refresh_millihz: u32,
}

/// Reports a failure at `where_` to the user of the library.
pub fn annotate_eacces(err: IoFailure, where_: &str) -> (error: AnnotatedError)
    ensures
        error.message@ == annotated_message(err.kind, where_@, VT_ADVICE@),
        error.cause == (match err.kind {
            FailureKind::PermissionDenied => None,
            FailureKind::Other => Some(err.text),
        }),
{
    annotate(err, where_, VT_ADVICE)
}

} // verus!
