use rust_embedded_wgpu::backend::{BackendRequest, Backends};
use rust_embedded_wgpu::errors::Report;
use rust_embedded_wgpu::examples_api::ExampleSize;
use rust_embedded_wgpu::kms::scanout::TargetFormat;
use rust_embedded_wgpu::kms::DrmPick;
use rust_embedded_wgpu::run::{
    AdapterOptions, OutputFormat, PresenterKind, Run, RunAction, RunError, RunEvent, RunPhase,
};

const PICK: DrmPick = DrmPick { connector_id: 1, width: 2, height: 3, refresh_millihz: 4 };
const BOTH: Backends = Backends { vulkan: true, gl: true };
const GL: Backends = Backends { vulkan: false, gl: true };
const INDEXED: OutputFormat = OutputFormat::Surface { index: 3 };
const RGBA: OutputFormat = OutputFormat::Target { format: TargetFormat::Rgba8Unorm };

use RunEvent::{Failed, Succeeded};

fn after(request: BackendRequest, kms_cpu_scanout: bool, events: &[RunEvent]) -> Run {
    let mut run = Run::run(kms_cpu_scanout);
    run.step(RunEvent::Picked { pick: PICK });
    run.step(RunEvent::Requested { request });
    for event in events {
        run.step(*event);
    }
    run
}

fn request_adapter(kind: PresenterKind) -> RunAction {
    let options = AdapterOptions {
        high_performance: true,
        compatible_surface: kind == PresenterKind::Surface,
        force_fallback_adapter: false,
    };
    RunAction::RequestAdapter { kind, options }
}

#[test]
fn sizes_are_kept() {
    assert_eq!(ExampleSize::new(3, 4), ExampleSize { width: 3, height: 4 });
}

#[test]
fn the_request_is_read_behind_the_pick() {
    let mut run = Run::run(true);
    assert_eq!(run.action(), RunAction::PickDisplay);
    run.step(RunEvent::Requested { request: BackendRequest::Gl });
    assert_eq!(run.action(), RunAction::PickDisplay);
    run.step(RunEvent::Picked { pick: PICK });
    assert_eq!(run.action(), RunAction::ReadRequest);
    run.step(RunEvent::Requested { request: BackendRequest::Gl });
    assert_eq!(run.action(), RunAction::CreateInstance { backends: GL, flags: 0 });
}

#[test]
fn a_surface_is_used_where_there_is_one() {
    let events =
        [Succeeded, Succeeded, Succeeded, Succeeded, RunEvent::Built { format: INDEXED }, Succeeded];
    let actions: Vec<RunAction> =
        (0..7).map(|n| after(BackendRequest::Unset, true, &events[..n]).action()).collect();
    assert_eq!(actions, [
        RunAction::CreateInstance { backends: BOTH, flags: 0 },
        RunAction::CreateSurface { pick: PICK, plane: 0 },
        request_adapter(PresenterKind::Surface),
        RunAction::RequestDevice { kind: PresenterKind::Surface },
        RunAction::BuildPresenter { kind: PresenterKind::Surface, pick: PICK },
        RunAction::BuildRenderer { format: INDEXED },
        RunAction::WaitForTick { millis: 16 },
    ]);
}

#[test]
fn a_missing_surface_falls_back_to_kms() {
    let events = [
        Succeeded,
        Failed,
        Succeeded,
        Succeeded,
        Succeeded,
        RunEvent::Built { format: RGBA },
        Succeeded,
    ];
    let actions: Vec<RunAction> =
        (2..8).map(|n| after(BackendRequest::Unset, true, &events[..n]).action()).collect();
    assert_eq!(actions, [
        request_adapter(PresenterKind::Kms),
        RunAction::RequestDevice { kind: PresenterKind::Kms },
        RunAction::CloneCard,
        RunAction::BuildPresenter { kind: PresenterKind::Kms, pick: PICK },
        RunAction::BuildRenderer { format: RGBA },
        RunAction::WaitForTick { millis: 16 },
    ]);
}

#[test]
fn without_vulkan_no_surface_is_tried() {
    assert_eq!(
        after(BackendRequest::Gl, true, &[Succeeded]).action(),
        request_adapter(PresenterKind::Kms)
    );
}

#[test]
fn without_scanout_a_missing_surface_is_an_error() {
    let disabled = RunAction::Fail { error: RunError::ScanoutDisabled };
    assert_eq!(after(BackendRequest::Vulkan, false, &[Succeeded, Failed]).action(), disabled);
    assert_eq!(after(BackendRequest::Gl, false, &[Succeeded]).action(), disabled);
}

#[test]
fn every_failed_step_has_its_error() {
    let surface = [Succeeded, Succeeded, Succeeded];
    let kms = [Succeeded, Succeeded, Succeeded, Succeeded];
    let failed = |mut run: Run| {
        run.step(Failed);
        match run.action() {
            RunAction::Fail { error } => error,
            action => panic!("unexpected {:?}", action),
        }
    };
    let adapter = |kind| RunError::Adapter { kind };
    let unset = |events: &[RunEvent]| after(BackendRequest::Unset, true, events);
    let gl = |events: &[RunEvent]| after(BackendRequest::Gl, true, events);
    assert_eq!(failed(Run::run(true)), RunError::Pick);
    assert_eq!(failed(unset(&surface[..2])), adapter(PresenterKind::Surface));
    assert_eq!(failed(unset(&surface)), RunError::Device);
    assert_eq!(failed(gl(&kms[..1])), adapter(PresenterKind::Kms));
    assert_eq!(failed(gl(&kms[..2])), RunError::Device);
    assert_eq!(failed(gl(&kms[..3])), RunError::CloneCard);
    assert_eq!(failed(gl(&kms)), RunError::Presenter);
}

fn waiting() -> Run {
    Run { backends: BOTH, kms_cpu_scanout: true, phase: RunPhase::Wait }
}

#[test]
fn a_tick_renders_a_frame() {
    let mut run = waiting();
    run.step(RunEvent::Ticked { nanos: 77 });
    assert_eq!(run.action(), RunAction::UpdateTime { nanos: 77 });
    run.step(Succeeded);
    assert_eq!(run.action(), RunAction::BeginFrame);
    run.step(RunEvent::Begun { frame: 5 });
    assert_eq!(run.action(), RunAction::RecordFrame { frame: 5 });
    run.step(Succeeded);
    assert_eq!(run.action(), RunAction::EndFrame { frame: 5 });
    run.step(Succeeded);
    assert_eq!(run, waiting());
}

#[test]
fn the_times_that_are_told_are_those_of_the_ticks() {
    let mut run = waiting();
    let mut told = Vec::new();
    for nanos in [1, 16, 16, 40] {
        run.step(RunEvent::Ticked { nanos });
        // A tick that nobody waits for changes nothing.
        run.step(RunEvent::Ticked { nanos: 0 });
        if let RunAction::UpdateTime { nanos } = run.action() {
            told.push(nanos);
        }
        for event in [Succeeded, RunEvent::Begun { frame: 1 }, Succeeded, Succeeded] {
            run.step(event);
        }
    }
    assert_eq!(told, [1, 16, 16, 40]);
}

#[test]
fn the_renderer_is_built_once() {
    let mut run = waiting();
    run.step(RunEvent::Built { format: RGBA });
    assert_eq!(run, waiting());
}

#[test]
fn a_frame_that_fails_ends_the_program() {
    for (phase, error) in [
        (RunPhase::BeginFrame, RunError::BeginFrame),
        (RunPhase::EndFrame { frame: 2 }, RunError::EndFrame),
    ] {
        let mut run = Run { phase, ..waiting() };
        run.step(Failed);
        assert_eq!(run.action(), RunAction::Fail { error });
        run.step(RunEvent::Ticked { nanos: 1 });
        assert_eq!(run.action(), RunAction::Fail { error });
    }
}

#[test]
fn the_user_stops_the_program() {
    for event in [RunEvent::Interrupted, RunEvent::Escaped] {
        let mut run = waiting();
        run.step(event);
        assert_eq!(run.action(), RunAction::Stop);
        run.step(RunEvent::Ticked { nanos: 1 });
        assert_eq!(run.action(), RunAction::Stop);
    }
}

#[test]
fn devices_have_labels() {
    assert_eq!(PresenterKind::Surface.device_label(), "device");
    assert_eq!(PresenterKind::Kms.device_label(), "offscreen_device");
}

#[test]
fn errors_have_contexts() {
    let adapter = |kind| RunError::Adapter { kind };
    assert_eq!(RunError::Pick.context(), Some("pick DRM card/connector/mode"));
    assert_eq!(
        RunError::ScanoutDisabled.context(),
        Some("wgpu DRM surface create failed and kms_cpu_scanout not enabled")
    );
    assert_eq!(
        adapter(PresenterKind::Surface).context(),
        Some("No suitable Vulkan adapter for DRM surface")
    );
    assert_eq!(
        adapter(PresenterKind::Kms).context(),
        Some("No suitable adapter for offscreen KMS scanout")
    );
    assert_eq!(RunError::Presenter.context(), Some("init KMS CPU presenter"));
    for error in [RunError::Device, RunError::CloneCard, RunError::BeginFrame, RunError::EndFrame] {
        assert_eq!(error.context(), None);
    }
}

#[test]
fn building_a_presenter_on_a_surface_does_not_fail() {
    let mut run = after(BackendRequest::Unset, true, &[Succeeded; 4]);
    let action = RunAction::BuildPresenter { kind: PresenterKind::Surface, pick: PICK };
    assert_eq!(run.action(), action);
    run.step(Failed);
    assert_eq!(run.action(), action);
}

#[test]
fn errors_are_reported_with_their_cause() {
    for error in [
        RunError::Pick,
        RunError::Adapter { kind: PresenterKind::Surface },
        RunError::Adapter { kind: PresenterKind::Kms },
        RunError::Presenter,
    ] {
        assert_eq!(error.report(), Report::Caused);
    }
    assert_eq!(RunError::ScanoutDisabled.report(), Report::Alone);
    for error in [RunError::Device, RunError::CloneCard, RunError::BeginFrame, RunError::EndFrame] {
        assert_eq!(error.report(), Report::Unchanged);
    }
}
