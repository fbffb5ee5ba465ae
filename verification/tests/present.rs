use rust_embedded_wgpu::errors::Site;
use rust_embedded_wgpu::kms::present::{
    flip_seen, CopyLayout, DrmEvent, EndAction, EndEvent, EndPhase, KmsCpuPresenter, TargetTexture,
};
use rust_embedded_wgpu::kms::scanout::TargetFormat;
use rust_embedded_wgpu::kms::setup::{ConnectorSetup, PresenterSetup, SetupEvent};
use rust_embedded_wgpu::kms::DrmPick;
use rust_embedded_wgpu::surface::TextureUsages;

/// A presenter of 2 by 2 pixels on CRTC 5, with the framebuffers 70 and 71.
fn presenter(dump_path: Option<&str>) -> KmsCpuPresenter {
    let pick = DrmPick { connector_id: 3, width: 2, height: 2, refresh_millihz: 60000 };
    let mut setup = PresenterSetup::new(pick);
    for event in [
        SetupEvent::Resources(vec![3]),
        SetupEvent::Connector(ConnectorSetup { connected: true, modes: 1, encoders: vec![4] }),
        SetupEvent::Encoder(Some(5)),
        SetupEvent::Created { pitch: 12 },
        SetupEvent::Cleared,
        SetupEvent::Attached { fb: 70 },
        SetupEvent::Created { pitch: 12 },
        SetupEvent::Cleared,
        SetupEvent::Attached { fb: 71 },
        SetupEvent::Shown,
    ] {
        setup.step(event);
    }
    setup.finish(dump_path.map(String::from)).unwrap()
}

const COPY: CopyLayout =
    CopyLayout { offset: 0, bytes_per_row: 256, rows_per_image: 2, width: 2, height: 2 };

/// The flip to a buffer of the presenter.
fn flip(buffer: usize) -> EndAction {
    EndAction::PageFlip { buffer, crtc: 5, fb: 70 + buffer as u32, event: true }
}

/// The buffer that is written next.
fn back(presenter: &KmsCpuPresenter) -> usize {
    match presenter.end_action(EndPhase::Blit) {
        EndAction::Blit { buffer } => buffer,
        action => panic!("unexpected {:?}", action),
    }
}

fn flipped(crtc: u32) -> EndEvent {
    EndEvent::Received(vec![DrmEvent::Other, DrmEvent::PageFlip { crtc }])
}

/// Ends one frame whose every action succeeds, and lists what was done.
fn end_one_frame(presenter: &mut KmsCpuPresenter) -> Vec<EndAction> {
    let mut done = Vec::new();
    let mut phase = presenter.end_frame();
    loop {
        let action = presenter.end_action(phase);
        done.push(action);
        phase = match action {
            EndAction::Done | EndAction::Fail { .. } => return done,
            EndAction::ReceiveEvents => presenter.end_step(phase, flipped(5)),
            _ => presenter.end_step(phase, EndEvent::Succeeded),
        };
    }
}

#[test]
fn frames_are_rendered_in_rgba() {
    assert_eq!(presenter(None).preferred_format(), TargetFormat::Rgba8Unorm);
}

#[test]
fn the_copy_covers_the_image() {
    assert_eq!(
        presenter(None).target_texture(),
        TargetTexture {
            width: 2,
            height: 2,
            format: TargetFormat::Rgba8Unorm,
            usage: TextureUsages { render_attachment: true, copy_src: true },
        }
    );
    assert_eq!(presenter(None).copy_to_readback(), COPY);
}

#[test]
fn the_blit_converts_to_xrgb() {
    let mut data = vec![0u8; 512];
    data[..8].copy_from_slice(&[1, 2, 3, 4, 5, 6, 7, 8]);
    data[256..264].copy_from_slice(&[11, 12, 13, 14, 15, 16, 17, 18]);
    let mut map = vec![0xEEu8; 24];
    presenter(None).blit_readback_to_dumb(&data, &mut map);
    assert_eq!(map[..8], [3, 2, 1, 4, 7, 6, 5, 8]);
    assert_eq!(map[8..12], [0xEE; 4]);
    assert_eq!(map[12..20], [13, 12, 11, 14, 17, 16, 15, 18]);
    assert_eq!(map[20..], [0xEE; 4]);
}

#[test]
fn a_frame_is_ended_step_by_step() {
    let mut presenter = presenter(None);
    assert_eq!(
        end_one_frame(&mut presenter),
        [
            EndAction::CopyAndSubmit { copy: COPY },
            EndAction::Blit { buffer: 1 },
            flip(1),
            EndAction::ReceiveEvents,
            EndAction::Done,
        ]
    );
    assert_eq!(back(&presenter), 0);
}

#[test]
fn frames_alternate_between_the_buffers() {
    let mut presenter = presenter(None);
    let mut shown = 0;
    for _ in 0..5 {
        let actions = end_one_frame(&mut presenter);
        assert_eq!(actions[1], EndAction::Blit { buffer: 1 - shown });
        assert_eq!(actions[2], flip(1 - shown));
        shown = 1 - shown;
        assert_eq!(back(&presenter), 1 - shown);
    }
}

#[test]
fn the_flip_is_waited_for() {
    let mut presenter = presenter(None);
    let phase = presenter.end_step(EndPhase::Receive, EndEvent::Received(vec![]));
    assert_eq!(presenter.end_action(phase), EndAction::Pause { millis: 1 });
    let phase = presenter.end_step(phase, EndEvent::Succeeded);
    assert_eq!(presenter.end_action(phase), EndAction::ReceiveEvents);
    let phase = presenter.end_step(phase, flipped(6));
    assert_eq!(presenter.end_action(phase), EndAction::Pause { millis: 1 });
    assert_eq!(back(&presenter), 1);
    let phase = presenter.end_step(phase, EndEvent::Succeeded);
    let phase = presenter.end_step(phase, flipped(5));
    assert_eq!(phase, EndPhase::Done);
    assert_eq!(back(&presenter), 0);
}

#[test]
fn failures_leave_the_back_buffer() {
    let mut presenter = presenter(None);
    for (phase, site) in [
        (EndPhase::Blit, Site::MapBuffer),
        (EndPhase::Flip, Site::PageFlip),
        (EndPhase::Receive, Site::ReceiveEvents),
    ] {
        let next = presenter.end_step(phase, EndEvent::Failed);
        assert_eq!(presenter.end_action(next), EndAction::Fail { site });
        assert_eq!(back(&presenter), 1);
    }
}

#[test]
fn only_the_first_frame_is_dumped() {
    let mut presenter = presenter(Some("/tmp/out.ppm"));
    let actions = end_one_frame(&mut presenter);
    assert_eq!(actions[1..4], [
        EndAction::Blit { buffer: 1 },
        EndAction::Dump { buffer: 1 },
        flip(1),
    ]);
    assert_eq!(end_one_frame(&mut presenter).len(), 5);
}

#[test]
fn a_dump_that_fails_is_not_repeated() {
    let mut presenter = presenter(Some("/tmp/out.ppm"));
    let phase = presenter.end_step(EndPhase::Dump, EndEvent::Failed);
    assert_eq!(phase, EndPhase::Flip);
    assert_eq!(presenter.end_step(EndPhase::Blit, EndEvent::Succeeded), EndPhase::Flip);
}

#[test]
fn a_dump_shows_the_frame() {
    let presenter = presenter(None);
    assert_eq!(presenter.dump_header(), b"P6\n2 2\n255\n");
    let map: Vec<u8> = (0..24).collect();
    assert!(presenter.dump_fits(20));
    assert!(!presenter.dump_fits(19));
    assert_eq!(presenter.dump_body(&map), [2, 1, 0, 6, 5, 4, 14, 13, 12, 18, 17, 16]);
}

#[test]
fn flips_are_told_apart() {
    assert!(!flip_seen(&[], 5));
    assert!(!flip_seen(&[DrmEvent::Other, DrmEvent::PageFlip { crtc: 6 }], 5));
    assert!(flip_seen(&[DrmEvent::PageFlip { crtc: 6 }, DrmEvent::PageFlip { crtc: 5 }], 5));
}

#[test]
fn a_frame_that_is_not_written_leaves_the_save_to_the_next() {
    let mut presenter = presenter(Some("/tmp/out.ppm"));
    let phase = presenter.end_frame();
    let phase = presenter.end_step(phase, EndEvent::Succeeded);
    let phase = presenter.end_step(phase, EndEvent::Failed);
    assert_eq!(presenter.end_action(phase), EndAction::Fail { site: Site::MapBuffer });
    assert!(end_one_frame(&mut presenter).contains(&EndAction::Dump { buffer: 1 }));
    for buffer in [0, 1, 0] {
        assert!(!end_one_frame(&mut presenter).contains(&EndAction::Dump { buffer }));
    }
}
