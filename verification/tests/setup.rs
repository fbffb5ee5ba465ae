use rust_embedded_wgpu::errors::{Report, Site};
use rust_embedded_wgpu::kms::present::{EndAction, EndPhase};
use rust_embedded_wgpu::kms::scanout::ScanoutLayout;
use rust_embedded_wgpu::kms::setup::{
    ConnectorSetup, PresenterSetup, SetupAction, SetupError, SetupEvent, FOURCC_XRGB8888,
};
use rust_embedded_wgpu::kms::DrmPick;

fn pick(width: u32, height: u32) -> DrmPick {
    DrmPick { connector_id: 1, width, height, refresh_millihz: 60000 }
}

fn connector(connected: bool, modes: usize, encoders: Vec<u32>) -> SetupEvent {
    SetupEvent::Connector(ConnectorSetup { connected, modes, encoders })
}

fn successes() -> Vec<SetupEvent> {
    vec![
        SetupEvent::Resources(vec![30, 31]),
        connector(false, 1, vec![40]),
        connector(true, 2, vec![41, 42]),
        SetupEvent::Encoder(Some(50)),
        SetupEvent::Created { pitch: 320 },
        SetupEvent::Cleared,
        SetupEvent::Attached { fb: 70 },
        SetupEvent::Created { pitch: 384 },
        SetupEvent::Cleared,
        SetupEvent::Attached { fb: 71 },
        SetupEvent::Shown,
    ]
}

/// The setup once the first `n` actions succeeded.
fn after(n: usize) -> PresenterSetup {
    let mut setup = PresenterSetup::new(pick(80, 60));
    for event in successes().into_iter().take(n) {
        setup.step(event);
    }
    setup
}

fn error_after(n: usize, event: SetupEvent) -> SetupError {
    let mut setup = after(n);
    setup.step(event);
    match setup.action() {
        SetupAction::Fail { error } => error,
        action => panic!("unexpected {:?}", action),
    }
}

#[test]
fn a_setup_goes_step_by_step() {
    let actions: Vec<SetupAction> = (0..12).map(|n| after(n).action()).collect();
    let create = SetupAction::CreateDumbBuffer {
        width: 80,
        height: 60,
        format: drm::buffer::DrmFourcc::Xrgb8888 as u32,
        bpp: 32,
    };
    assert_eq!(actions, [
        SetupAction::ListResources,
        SetupAction::ProbeConnector { connector_id: 30, force: true },
        SetupAction::ProbeConnector { connector_id: 31, force: true },
        SetupAction::GetEncoder { encoder: 41 },
        create,
        SetupAction::ClearBuffer { buffer: 0 },
        SetupAction::AddFramebuffer { buffer: 0, depth: 24, bpp: 32 },
        create,
        SetupAction::ClearBuffer { buffer: 1 },
        SetupAction::AddFramebuffer { buffer: 1, depth: 24, bpp: 32 },
        SetupAction::SetCrtc { crtc: 50, fb: 70, x: 0, y: 0, connector_id: 31, mode: 0 },
        SetupAction::Done,
    ]);
}

#[test]
fn a_finished_setup_gives_a_presenter() {
    let presenter = after(11).finish(Some("/tmp/out.ppm".to_string())).unwrap();
    assert_eq!(
        presenter.end_action(EndPhase::Flip),
        EndAction::PageFlip { buffer: 1, crtc: 50, fb: 71, event: true }
    );
    assert_eq!(
        presenter.scanout_layout(),
        ScanoutLayout { width: 80, height: 60, dumb_pitch: 320, copy_bpr: 512 }
    );
    assert_eq!(presenter.dump_path(), Some("/tmp/out.ppm"));
    assert_eq!(after(11).finish(None).unwrap().dump_path(), None);
}

#[test]
fn the_format_code_is_that_of_drm() {
    assert_eq!(FOURCC_XRGB8888, u32::from_le_bytes(*b"XR24"));
    assert_eq!(FOURCC_XRGB8888, drm::buffer::DrmFourcc::Xrgb8888 as u32);
}

#[test]
fn both_buffers_are_cleared_before_one_is_shown() {
    let shows: Vec<usize> = (0..12)
        .filter(|&n| matches!(after(n).action(), SetupAction::SetCrtc { .. }))
        .collect();
    let clears: Vec<usize> = (0..12)
        .filter(|&n| matches!(after(n).action(), SetupAction::ClearBuffer { .. }))
        .collect();
    assert_eq!((clears, shows), (vec![5, 8], vec![10]));
    let mut setup = after(5);
    setup.step(SetupEvent::Attached { fb: 70 });
    assert_eq!(setup.action(), SetupAction::ClearBuffer { buffer: 0 });
}

#[test]
fn an_unfinished_setup_gives_none() {
    assert!(after(10).finish(None).is_none());
    let mut setup = after(10);
    setup.step(SetupEvent::Failed);
    assert!(setup.finish(None).is_none());
}

#[test]
fn an_empty_size_is_raised_to_one_pixel() {
    let mut setup = PresenterSetup::new(pick(0, 0));
    for event in successes().into_iter().take(4) {
        setup.step(event);
    }
    assert_eq!(
        setup.action(),
        SetupAction::CreateDumbBuffer { width: 1, height: 1, format: FOURCC_XRGB8888, bpp: 32 }
    );
}

#[test]
fn every_failure_has_its_error() {
    assert_eq!(error_after(0, SetupEvent::Failed), SetupError::Resources);
    assert_eq!(error_after(0, SetupEvent::Resources(vec![])), SetupError::NoConnector);
    assert_eq!(error_after(2, SetupEvent::Failed), SetupError::NoConnector);
    assert_eq!(error_after(2, connector(true, 0, vec![41])), SetupError::NoConnector);
    assert_eq!(error_after(2, connector(true, 1, vec![])), SetupError::NoEncoder);
    assert_eq!(error_after(3, SetupEvent::Failed), SetupError::Encoder);
    assert_eq!(error_after(3, SetupEvent::Encoder(None)), SetupError::NoCrtc);
    let device = |site| SetupError::Device { site };
    assert_eq!(error_after(4, SetupEvent::Failed), device(Site::CreateFirstBuffer));
    assert_eq!(error_after(5, SetupEvent::Failed), device(Site::MapBuffer));
    assert_eq!(error_after(6, SetupEvent::Failed), device(Site::AddFramebuffer));
    assert_eq!(error_after(7, SetupEvent::Failed), device(Site::CreateSecondBuffer));
    assert_eq!(error_after(8, SetupEvent::Failed), device(Site::MapBuffer));
    assert_eq!(error_after(9, SetupEvent::Failed), device(Site::AddFramebuffer));
    assert_eq!(error_after(10, SetupEvent::Failed), device(Site::SetCrtc));
}

#[test]
fn errors_have_words() {
    assert_eq!(SetupError::Resources.message(), "resource_handles");
    assert_eq!(SetupError::NoConnector.message(), "no connected connector found");
    assert_eq!(SetupError::NoEncoder.message(), "no encoder for connector");
    assert_eq!(SetupError::Encoder.message(), "get_encoder");
    assert_eq!(SetupError::NoCrtc.message(), "no crtc available");
    assert_eq!(SetupError::Device { site: Site::SetCrtc }.message(), "set_crtc");
}

#[test]
fn errors_are_reported_with_their_cause_or_advice() {
    assert_eq!(SetupError::Resources.report(), Report::Caused);
    assert_eq!(SetupError::Encoder.report(), Report::Caused);
    for error in [SetupError::NoConnector, SetupError::NoEncoder, SetupError::NoCrtc] {
        assert_eq!(error.report(), Report::Alone);
    }
    assert_eq!(SetupError::Device { site: Site::SetCrtc }.report(), Report::Advised);
    assert_eq!(Site::PageFlip.report(), Report::Advised);
}
