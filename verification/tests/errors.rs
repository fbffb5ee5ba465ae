use rust_embedded_wgpu::errors::{annotate_eacces, FailureKind, IoFailure, Site};
use rust_embedded_wgpu::kms;

fn failure(kind: FailureKind) -> IoFailure {
    IoFailure { kind, text: "the system's words".to_string() }
}

#[test]
fn denied_permission_gives_advice() {
    let error = annotate_eacces(failure(FailureKind::PermissionDenied), "page_flip");
    assert_eq!(
        error.message,
        "page_flip: Permission denied. Run on a local VT/seat with DRM master (not SSH), or stop the display manager.\nTips:\n- Switch to a text VT (e.g., Ctrl+Alt+F2 on Jetson), log in, and run the binary there.\n- Ensure your user is in the 'video' group (for /dev/dri/card*).\n- If using seatd/logind, launch from a seat-managed session so the process can acquire DRM master."
    );
    assert_eq!(error.cause, None);
}

#[test]
fn denied_permission_gives_short_advice_in_the_library() {
    let error = kms::annotate_eacces(failure(FailureKind::PermissionDenied), "set_crtc");
    assert_eq!(error.message, "set_crtc: Permission denied. Run on a VT and/or ensure DRM master.");
    assert_eq!(error.cause, None);
}

#[test]
fn other_failures_keep_their_cause() {
    let error = annotate_eacces(failure(FailureKind::Other), "set_crtc");
    assert_eq!(error.message, "set_crtc");
    assert_eq!(error.cause.as_deref(), Some("the system's words"));
    let error = kms::annotate_eacces(failure(FailureKind::Other), "set_crtc");
    assert_eq!(error.message, "set_crtc");
    assert_eq!(error.cause.as_deref(), Some("the system's words"));
}

#[test]
fn sites_have_names() {
    assert_eq!(Site::CreateFirstBuffer.label(), "create_dumb_buffer[0]");
    assert_eq!(Site::CreateSecondBuffer.label(), "create_dumb_buffer[1]");
    assert_eq!(Site::MapBuffer.label(), "map_dumb_buffer");
    assert_eq!(Site::AddFramebuffer.label(), "add_framebuffer");
    assert_eq!(Site::SetCrtc.label(), "set_crtc");
    assert_eq!(Site::PageFlip.label(), "page_flip");
    assert_eq!(Site::ReceiveEvents.label(), "receive_events");
}
