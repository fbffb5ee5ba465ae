use rust_embedded_wgpu::surface::{
    AcquireAction, AcquirePhase, AlphaMode, PresentMode, SurfaceCaps, SurfaceFormat,
    SurfacePresenter, TextureUsages,
};

#[test]
fn wanted_entries_are_chosen() {
    let caps = SurfaceCaps {
        formats: vec![
            SurfaceFormat::Other,
            SurfaceFormat::Rgba8UnormSrgb,
            SurfaceFormat::Bgra8UnormSrgb,
        ],
        present_modes: vec![PresentMode::Other, PresentMode::Other, PresentMode::Fifo],
        alpha_modes: vec![AlphaMode::Opaque, AlphaMode::Other],
    };
    let presenter = SurfacePresenter::new(&caps, 640, 480);
    assert_eq!(
        presenter,
        SurfacePresenter {
            usage: TextureUsages { render_attachment: true, copy_src: false },
            format: 1,
            present_mode: 2,
            alpha_mode: 0,
            width: 640,
            height: 480,
            view_formats: vec![],
            desired_maximum_frame_latency: 2,
        }
    );
    assert_eq!(presenter.preferred_format(), 1);
}

#[test]
fn without_wanted_entries_the_first_are_chosen() {
    let caps = SurfaceCaps {
        formats: vec![SurfaceFormat::Other, SurfaceFormat::Other],
        present_modes: vec![PresentMode::Other],
        alpha_modes: vec![AlphaMode::Other, AlphaMode::Other],
    };
    let presenter = SurfacePresenter::new(&caps, 1, 1);
    assert_eq!((presenter.format, presenter.present_mode, presenter.alpha_mode), (0, 0, 0));
}

fn presenter() -> SurfacePresenter {
    let caps = SurfaceCaps {
        formats: vec![SurfaceFormat::Other],
        present_modes: vec![PresentMode::Other],
        alpha_modes: vec![AlphaMode::Other],
    };
    SurfacePresenter::new(&caps, 1, 1)
}

#[test]
fn a_frame_is_acquired_at_once() {
    let phase = presenter().begin_frame();
    assert_eq!(phase.action(), AcquireAction::Acquire);
    assert_eq!(phase.step(true).action(), AcquireAction::Done);
}

#[test]
fn a_frame_is_acquired_after_a_reconfigure() {
    let phase = presenter().begin_frame().step(false);
    assert_eq!(phase.action(), AcquireAction::Configure);
    let phase = phase.step(true);
    assert_eq!(phase.action(), AcquireAction::Acquire);
    assert_eq!(phase.step(true), AcquirePhase::Acquired);
    assert_eq!(phase.step(false).action(), AcquireAction::Fail);
}
