//! What went wrong at the device, and what to tell the user about it.

use vstd::prelude::*;

verus! {

/// The advice of the program where a device denies permission.
pub const SEAT_ADVICE: &'static str =
    ": Permission denied. Run on a local VT/seat with DRM master (not SSH), or stop the display manager.\n\
     Tips:\n\
     - Switch to a text VT (e.g., Ctrl+Alt+F2 on Jetson), log in, and run the binary there.\n\
     - Ensure your user is in the 'video' group (for /dev/dri/card*).\n\
     - If using seatd/logind, launch from a seat-managed session so the process can acquire DRM master.";

/// The advice of the library where a device denies permission.
pub const VT_ADVICE: &'static str = ": Permission denied. Run on a VT and/or ensure DRM master.";

/// How a device operation failed.
#[derive(Clone, Copy, Debug, PartialEq, Eq, Structural)]
pub enum FailureKind {
    PermissionDenied,
    Other,
}

/// The failure of a device operation, with the system's own words for it.
#[derive(Debug)]
pub struct IoFailure {
    pub kind: FailureKind,
    pub text: String,
}

/// A failure as it is reported: a message, and the failure beneath it where that is kept.
#[derive(Debug)]
pub struct AnnotatedError {
    pub message: String,
    pub cause: Option<String>,
}

/// The message of a failure at `place`: with advice where permission was denied, else the
/// place alone.
pub open spec fn annotated_message(
    kind: FailureKind,
    place: Seq<char>,
    advice: Seq<char>,
) -> Seq<char> {
    match kind {
        FailureKind::PermissionDenied => place + advice,
        FailureKind::Other => place,
    }
}

/// Reports a failure at `place`. The advice stands in for the failure beneath it; without
/// advice that failure is kept.
pub fn annotate(err: IoFailure, place: &str, advice: &str) -> (error: AnnotatedError)
    ensures
        error.message@ == annotated_message(err.kind, place@, advice@),
        error.cause == (match err.kind {
            FailureKind::PermissionDenied => None,
            FailureKind::Other => Some(err.text),
        }),
{
    match err.kind {
        FailureKind::PermissionDenied => {
            let mut message: String = place.to_owned();
            message.append(advice);
            AnnotatedError { message, cause: None }
        },
        FailureKind::Other => AnnotatedError { message: place.to_owned(), cause: Some(err.text) },
    }
}

/// Reports a failure at `where_` to the user of the program.
pub fn annotate_eacces(err: IoFailure, where_: &str) -> (error: AnnotatedError)
    ensures
        error.message@ == annotated_message(err.kind, where_@, SEAT_ADVICE@),
        error.cause == (match err.kind {
            FailureKind::PermissionDenied => None,
            FailureKind::Other => Some(err.text),
        }),
{
    annotate(err, where_, SEAT_ADVICE)
}

/// How an error is put together of its words and the failure beneath it.
#[derive(Clone, Copy, Debug, PartialEq, Eq, Structural)]
pub enum Report {
    /// The words and advice in place of the failure where permission was denied, else the words
    /// before the failure.
    Advised,
    /// The words before the failure.
    Caused,
    /// The words alone.
    Alone,
    /// The failure as it is.
    Unchanged,
}

/// The device operations whose failure is reported with advice.
#[derive(Clone, Copy, Debug, PartialEq, Eq, Structural)]
pub enum Site {
    CreateFirstBuffer,
    CreateSecondBuffer,
    MapBuffer,
    AddFramebuffer,
    SetCrtc,
    PageFlip,
    ReceiveEvents,
}

impl Site {
    /// How a failure of this operation is reported: with advice.
    pub fn report(self) -> (report: Report)
        ensures
            report == Report::Advised,
    {
        Report::Advised
    }

    /// The name under which a failure of the operation is reported.
    pub open spec fn name(self) -> Seq<char> {
        match self {
            Site::CreateFirstBuffer => "create_dumb_buffer[0]"@,
            Site::CreateSecondBuffer => "create_dumb_buffer[1]"@,
            Site::MapBuffer => "map_dumb_buffer"@,
            Site::AddFramebuffer => "add_framebuffer"@,
            Site::SetCrtc => "set_crtc"@,
            Site::PageFlip => "page_flip"@,
            Site::ReceiveEvents => "receive_events"@,
        }
    }

    /// The name under which a failure of this operation is reported.
    pub fn label(self) -> (label: &'static str)
        ensures
            label@ == self.name(),
    {
        match self {
            Site::CreateFirstBuffer => "create_dumb_buffer[0]",
            Site::CreateSecondBuffer => "create_dumb_buffer[1]",
            Site::MapBuffer => "map_dumb_buffer",
            Site::AddFramebuffer => "add_framebuffer",
            Site::SetCrtc => "set_crtc",
            Site::PageFlip => "page_flip",
            Site::ReceiveEvents => "receive_events",
        }
    }
}

/// A failure is reported by its place and nothing more where permission was not denied, and by
/// its place followed by the advice where it was.
pub proof fn advice_follows_the_place(place: Seq<char>, advice: Seq<char>)
    ensures
        annotated_message(FailureKind::Other, place, advice) == place,
        ({
            let message = annotated_message(FailureKind::PermissionDenied, place, advice);
            &&& message.len() == place.len() + advice.len()
            &&& message.take(place.len() as int) == place
            &&& message.skip(place.len() as int) == advice
        }),
{
    let message = annotated_message(FailureKind::PermissionDenied, place, advice);
    assert(message.take(place.len() as int) =~= place);
    assert(message.skip(place.len() as int) =~= advice);
}

} // verus!
