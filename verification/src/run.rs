//! The course of the program: from picking a display over choosing a presenter to the loop
//! that renders a frame on every tick.

use vstd::prelude::*;

use crate::backend::{BackendRequest, Backends};
use crate::errors::Report;
use crate::kms::scanout::TargetFormat;
use crate::kms::DrmPick;

verus! {

/// The time from one tick to the next, in milliseconds.
pub const TICK_MILLIS: u64 = 16;

/// The plane of the display that a surface is created on.
pub const DRM_PLANE: u32 = 0;

/// The flags that the graphics instance is created with: none.
pub const INSTANCE_FLAGS: u32 = 0;

/// How frames get on the screen.
#[derive(Clone, Copy, Debug, PartialEq, Eq, Structural)]
pub enum PresenterKind {
    /// Through a surface on the display itself.
    Surface,
    /// Rendered offscreen, copied into dumb buffers and shown by page flips.
    Kms,
}

/// Why the program gave up.
#[derive(Clone, Copy, Debug, PartialEq, Eq, Structural)]
pub enum RunError {
    /// No display could be picked.
    Pick,
    /// There is no surface, and presenting without one is not enabled.
    ScanoutDisabled,
    /// No adapter suits the presenter.
    Adapter { kind: PresenterKind },
    /// The adapter gave no device.
    Device,
    /// The handle of the card could not be duplicated.
    CloneCard,
    /// The presenter could not be set up.
    Presenter,
    /// A frame could not be begun.
    BeginFrame,
    /// A frame could not be ended.
    EndFrame,
}

impl RunError {
    /// The words that are put before the failure beneath the error; none where that failure is
    /// reported as it is.
    pub open spec fn words(self) -> Option<Seq<char>> {
        match self {
            RunError::Pick => Some("pick DRM card/connector/mode"@),
            RunError::ScanoutDisabled => Some(
                "wgpu DRM surface create failed and kms_cpu_scanout not enabled"@,
            ),
            RunError::Adapter { kind: PresenterKind::Surface } => Some(
                "No suitable Vulkan adapter for DRM surface"@,
            ),
            RunError::Adapter { kind: PresenterKind::Kms } => Some(
                "No suitable adapter for offscreen KMS scanout"@,
            ),
            RunError::Presenter => Some("init KMS CPU presenter"@),
            RunError::Device => None,
            RunError::CloneCard => None,
            RunError::BeginFrame => None,
            RunError::EndFrame => None,
        }
    }

    /// The words to put before the failure beneath this error, where there are any.
    pub fn context(self) -> (context: Option<&'static str>)
        ensures
            context is Some <==> self.words() is Some,
            context matches Some(text) ==> Some(text@) == self.words(),
    {
        match self {
            RunError::Pick => Some("pick DRM card/connector/mode"),
            RunError::ScanoutDisabled => Some(
                "wgpu DRM surface create failed and kms_cpu_scanout not enabled",
            ),
            RunError::Adapter { kind: PresenterKind::Surface } => Some(
                "No suitable Vulkan adapter for DRM surface",
            ),
            RunError::Adapter { kind: PresenterKind::Kms } => Some(
                "No suitable adapter for offscreen KMS scanout",
            ),
            RunError::Presenter => Some("init KMS CPU presenter"),
            RunError::Device => None,
            RunError::CloneCard => None,
            RunError::BeginFrame => None,
            RunError::EndFrame => None,
        }
    }

    /// How this error is reported: before the failure beneath it where there are words for it,
    /// as that failure where there are none; and alone where presenting without a surface is not
    /// enabled, though creating the surface may have failed before that.
    pub fn report(self) -> (report: Report)
        ensures
            report == Report::Alone <==> self == RunError::ScanoutDisabled,
            report == Report::Caused <==> self.words() is Some && self
                != RunError::ScanoutDisabled,
            report == Report::Unchanged <==> self.words() is None,
            report != Report::Advised,
    {
        match self {
            RunError::Pick => Report::Caused,
            RunError::ScanoutDisabled => Report::Alone,
            RunError::Adapter { .. } => Report::Caused,
            RunError::Device => Report::Unchanged,
            RunError::CloneCard => Report::Unchanged,
            RunError::Presenter => Report::Caused,
            RunError::BeginFrame => Report::Unchanged,
            RunError::EndFrame => Report::Unchanged,
        }
    }
}

impl PresenterKind {
    /// The label of the device that frames are rendered with.
    pub open spec fn label(self) -> Seq<char> {
        match self {
            PresenterKind::Surface => "device"@,
            PresenterKind::Kms => "offscreen_device"@,
        }
    }

    /// The label of the device that frames are rendered with.
    pub fn device_label(self) -> (label: &'static str)
        ensures
            label@ == self.label(),
    {
        match self {
            PresenterKind::Surface => "device",
            PresenterKind::Kms => "offscreen_device",
        }
    }
}

/// What an adapter is requested for.
#[derive(Clone, Copy, Debug, PartialEq, Eq, Structural)]
pub struct AdapterOptions {
    /// The adapter with the highest performance is preferred.
    pub high_performance: bool,
    /// It has to be able to present to the surface.
    pub compatible_surface: bool,
    /// It has to be the one that falls back on software.
    pub force_fallback_adapter: bool,
}

/// The format that a presenter takes frames in.
#[derive(Clone, Copy, Debug, PartialEq, Eq, Structural)]
pub enum OutputFormat {
    /// The format at this position in what the surface is capable of.
    Surface { index: usize },
    /// The format of the texture that is rendered to offscreen.
    Target { format: TargetFormat },
}

/// How far the program has come. A frame is told from others by a number.
#[derive(Clone, Copy, Debug, PartialEq, Eq, Structural)]
pub enum RunPhase {
    /// A display is to be picked.
    Pick,
    /// The backends that the user asks for are to be read.
    Request { pick: DrmPick },
    /// The graphics instance is to be created.
    Instance { pick: DrmPick },
    /// A surface on the display is to be created.
    Surface { pick: DrmPick },
    /// An adapter is to be requested.
    Adapter { pick: DrmPick, kind: PresenterKind },
    /// A device is to be requested of the adapter.
    Device { pick: DrmPick, kind: PresenterKind },
    /// The handle of the card is to be duplicated.
    CloneCard { pick: DrmPick },
    /// The presenter is to be built.
    Presenter { pick: DrmPick, kind: PresenterKind },
    /// The renderer is to be built, for this format.
    Renderer { format: OutputFormat },
    /// The next tick is to be waited for.
    Wait,
    /// The renderer is to be told the time.
    UpdateTime { nanos: u128 },
    /// A frame is to be begun.
    BeginFrame,
    /// The frame is to be recorded.
    RecordFrame { frame: u64 },
    /// The frame is to be ended.
    EndFrame { frame: u64 },
    /// The user has stopped the program.
    Stopped,
    /// The program has given up.
    Failed { error: RunError },
}

/// What the program does next.
#[derive(Clone, Copy, Debug, PartialEq, Eq, Structural)]
pub enum RunAction {
    PickDisplay,
    /// Read what `WGPU_BACKEND` asks for.
    ReadRequest,
    CreateInstance { backends: Backends, flags: u32 },
    /// Create a surface on this plane of the picked display.
    CreateSurface { pick: DrmPick, plane: u32 },
    RequestAdapter { kind: PresenterKind, options: AdapterOptions },
    RequestDevice { kind: PresenterKind },
    CloneCard,
    BuildPresenter { kind: PresenterKind, pick: DrmPick },
    /// Build the renderer for this format, and start the clock and the ticks.
    BuildRenderer { format: OutputFormat },
    WaitForTick { millis: u64 },
    /// Tell the renderer how much time has passed since the clock was started.
    UpdateTime { nanos: u128 },
    BeginFrame,
    RecordFrame { frame: u64 },
    EndFrame { frame: u64 },
    Stop,
    Fail { error: RunError },
}

/// What came of an action.
#[derive(Clone, Copy, Debug, PartialEq, Eq, Structural)]
pub enum RunEvent {
    Succeeded,
    Failed,
    /// The display that was picked.
    Picked { pick: DrmPick },
    /// What the user asks for.
    Requested { request: BackendRequest },
    /// The presenter was built, and takes frames in this format.
    Built { format: OutputFormat },
    /// The tick came, this many nanoseconds after the clock was started.
    Ticked { nanos: u128 },
    /// The frame that was begun.
    Begun { frame: u64 },
    /// The user pressed Ctrl+C.
    Interrupted,
    /// The user pressed ESC.
    Escaped,
}

/// The program: which backends it may use, whether it may present without a surface, and how
/// far it has come.
#[derive(Clone, Copy, Debug, PartialEq, Eq, Structural)]
pub struct Run {
    pub backends: Backends,
    pub kms_cpu_scanout: bool,
    pub phase: RunPhase,
}

impl Run {
    /// Where the program goes on without a surface.
    pub open spec fn fallback(self, pick: DrmPick) -> RunPhase {
        if self.kms_cpu_scanout {
            RunPhase::Adapter { pick, kind: PresenterKind::Kms }
        } else {
            RunPhase::Failed { error: RunError::ScanoutDisabled }
        }
    }

    /// What the program does next.
    pub open spec fn wants(self) -> RunAction {
        match self.phase {
            RunPhase::Pick => RunAction::PickDisplay,
            RunPhase::Request { .. } => RunAction::ReadRequest,
            RunPhase::Instance { .. } => RunAction::CreateInstance {
                backends: self.backends,
                flags: INSTANCE_FLAGS,
            },
            RunPhase::Surface { pick } => RunAction::CreateSurface { pick, plane: DRM_PLANE },
            RunPhase::Adapter { kind, .. } => RunAction::RequestAdapter {
                kind,
                options: AdapterOptions {
                    high_performance: true,
                    compatible_surface: kind == PresenterKind::Surface,
                    force_fallback_adapter: false,
                },
            },
            RunPhase::Device { kind, .. } => RunAction::RequestDevice { kind },
            RunPhase::CloneCard { .. } => RunAction::CloneCard,
            RunPhase::Presenter { pick, kind } => RunAction::BuildPresenter { kind, pick },
            RunPhase::Renderer { format } => RunAction::BuildRenderer { format },
            RunPhase::Wait => RunAction::WaitForTick { millis: TICK_MILLIS },
            RunPhase::UpdateTime { nanos } => RunAction::UpdateTime { nanos },
            RunPhase::BeginFrame => RunAction::BeginFrame,
            RunPhase::RecordFrame { frame } => RunAction::RecordFrame { frame },
            RunPhase::EndFrame { frame } => RunAction::EndFrame { frame },
            RunPhase::Stopped => RunAction::Stop,
            RunPhase::Failed { error } => RunAction::Fail { error },
        }
    }

    /// The phase once an action came to this. What does not answer the action changes nothing.
    pub open spec fn next_phase(self, event: RunEvent) -> RunPhase {
        match (self.phase, event) {
            (RunPhase::Pick, RunEvent::Picked { pick }) => RunPhase::Request { pick },
            (RunPhase::Pick, RunEvent::Failed) => RunPhase::Failed { error: RunError::Pick },
            (RunPhase::Request { pick }, RunEvent::Requested { .. }) => RunPhase::Instance { pick },
            (RunPhase::Instance { pick }, RunEvent::Succeeded) => if self.backends.vulkan {
                RunPhase::Surface { pick }
            } else {
                self.fallback(pick)
            },
            (RunPhase::Surface { pick }, RunEvent::Succeeded) => RunPhase::Adapter {
                pick,
                kind: PresenterKind::Surface,
            },
            (RunPhase::Surface { pick }, RunEvent::Failed) => self.fallback(pick),
            (RunPhase::Adapter { pick, kind }, RunEvent::Succeeded) => RunPhase::Device {
                pick,
                kind,
            },
            (RunPhase::Adapter { kind, .. }, RunEvent::Failed) => RunPhase::Failed {
                error: RunError::Adapter { kind },
            },
            (RunPhase::Device { pick, kind }, RunEvent::Succeeded) => if kind
                == PresenterKind::Kms {
                RunPhase::CloneCard { pick }
            } else {
                RunPhase::Presenter { pick, kind }
            },
            (RunPhase::Device { .. }, RunEvent::Failed) => RunPhase::Failed {
                error: RunError::Device,
            },
            (RunPhase::CloneCard { pick }, RunEvent::Succeeded) => RunPhase::Presenter {
                pick,
                kind: PresenterKind::Kms,
            },
            (RunPhase::CloneCard { .. }, RunEvent::Failed) => RunPhase::Failed {
                error: RunError::CloneCard,
            },
            (RunPhase::Presenter { .. }, RunEvent::Built { format }) => RunPhase::Renderer {
                format,
            },
            (
                RunPhase::Presenter { kind: PresenterKind::Kms, .. },
                RunEvent::Failed,
            ) => RunPhase::Failed { error: RunError::Presenter },
            (RunPhase::Renderer { .. }, RunEvent::Succeeded) => RunPhase::Wait,
            (RunPhase::Wait, RunEvent::Ticked { nanos }) => RunPhase::UpdateTime { nanos },
            (RunPhase::Wait, RunEvent::Interrupted) => RunPhase::Stopped,
            (RunPhase::Wait, RunEvent::Escaped) => RunPhase::Stopped,
            (RunPhase::UpdateTime { .. }, RunEvent::Succeeded) => RunPhase::BeginFrame,
            (RunPhase::BeginFrame, RunEvent::Begun { frame }) => RunPhase::RecordFrame { frame },
            (RunPhase::BeginFrame, RunEvent::Failed) => RunPhase::Failed {
                error: RunError::BeginFrame,
            },
            (RunPhase::RecordFrame { frame }, RunEvent::Succeeded) => RunPhase::EndFrame { frame },
            (RunPhase::EndFrame { .. }, RunEvent::Succeeded) => RunPhase::Wait,
            (RunPhase::EndFrame { .. }, RunEvent::Failed) => RunPhase::Failed {
                error: RunError::EndFrame,
            },
            _ => self.phase,
        }
    }

    /// The program once an action came to this.
    pub open spec fn stepped(self, event: RunEvent) -> Run {
        Run {
            phase: self.next_phase(event),
            backends: match (self.phase, event) {
                (RunPhase::Request { .. }, RunEvent::Requested { request }) => request.allows(),
                _ => self.backends,
            },
            ..self
        }
    }

    /// The program once its actions came to all this.
    pub open spec fn after(self, events: Seq<RunEvent>) -> Run
        decreases events.len(),
    {
        if events.len() == 0 {
            self
        } else {
            self.after(events.drop_last()).stepped(events.last())
        }
    }

    /// The program once its actions came to the first `n` of these events.
    pub open spec fn at(self, events: Seq<RunEvent>, n: int) -> Run {
        self.after(events.take(n))
    }

    /// The program at its start, where it does not know yet which backends it may use.
    pub open spec fn started(kms_cpu_scanout: bool) -> Run {
        Run {
            backends: Backends { vulkan: false, gl: false },
            kms_cpu_scanout,
            phase: RunPhase::Pick,
        }
    }

    /// The program at its start.
    pub fn run(kms_cpu_scanout: bool) -> (run: Self)
        ensures
            run == Run::started(kms_cpu_scanout),
    {
        Run {
            backends: Backends { vulkan: false, gl: false },
            kms_cpu_scanout,
            phase: RunPhase::Pick,
        }
    }

    /// What to do next.
    pub fn action(&self) -> (action: RunAction)
        ensures
            action matches RunAction::CreateInstance { backends, flags } ==> backends
                == self.backends && flags == 0,
            action matches RunAction::CreateSurface { plane, .. } ==> plane == 0,
            action == self.wants(),
    {
        match self.phase {
            RunPhase::Pick => RunAction::PickDisplay,
            RunPhase::Request { .. } => RunAction::ReadRequest,
            RunPhase::Instance { .. } => RunAction::CreateInstance {
                backends: self.backends,
                flags: INSTANCE_FLAGS,
            },
            RunPhase::Surface { pick } => RunAction::CreateSurface { pick, plane: DRM_PLANE },
            RunPhase::Adapter { kind, .. } => RunAction::RequestAdapter {
                kind,
                options: AdapterOptions {
                    high_performance: true,
                    compatible_surface: kind == PresenterKind::Surface,
                    force_fallback_adapter: false,
                },
            },
            RunPhase::Device { kind, .. } => RunAction::RequestDevice { kind },
            RunPhase::CloneCard { .. } => RunAction::CloneCard,
            RunPhase::Presenter { pick, kind } => RunAction::BuildPresenter { kind, pick },
            RunPhase::Renderer { format } => RunAction::BuildRenderer { format },
            RunPhase::Wait => RunAction::WaitForTick { millis: TICK_MILLIS },
            RunPhase::UpdateTime { nanos } => RunAction::UpdateTime { nanos },
            RunPhase::BeginFrame => RunAction::BeginFrame,
            RunPhase::RecordFrame { frame } => RunAction::RecordFrame { frame },
            RunPhase::EndFrame { frame } => RunAction::EndFrame { frame },
            RunPhase::Stopped => RunAction::Stop,
            RunPhase::Failed { error } => RunAction::Fail { error },
        }
    }

    fn without_surface(&self, pick: DrmPick) -> (phase: RunPhase)
        ensures
            phase == self.fallback(pick),
    {
        if self.kms_cpu_scanout {
            RunPhase::Adapter { pick, kind: PresenterKind::Kms }
        } else {
            RunPhase::Failed { error: RunError::ScanoutDisabled }
        }
    }

    /// Takes what came of an action.
    pub fn step(&mut self, event: RunEvent)
        ensures
            *final(self) == old(self).stepped(event),
    {
        let phase: RunPhase = match (self.phase, event) {
            (RunPhase::Pick, RunEvent::Picked { pick }) => RunPhase::Request { pick },
            (RunPhase::Pick, RunEvent::Failed) => RunPhase::Failed { error: RunError::Pick },
            (RunPhase::Request { pick }, RunEvent::Requested { .. }) => RunPhase::Instance { pick },
            (RunPhase::Instance { pick }, RunEvent::Succeeded) => if self.backends.vulkan {
                RunPhase::Surface { pick }
            } else {
                self.without_surface(pick)
            },
            (RunPhase::Surface { pick }, RunEvent::Succeeded) => RunPhase::Adapter {
                pick,
                kind: PresenterKind::Surface,
            },
            (RunPhase::Surface { pick }, RunEvent::Failed) => self.without_surface(pick),
            (RunPhase::Adapter { pick, kind }, RunEvent::Succeeded) => RunPhase::Device {
                pick,
                kind,
            },
            (RunPhase::Adapter { kind, .. }, RunEvent::Failed) => RunPhase::Failed {
                error: RunError::Adapter { kind },
            },
            (RunPhase::Device { pick, kind }, RunEvent::Succeeded) => if kind
                == PresenterKind::Kms {
                RunPhase::CloneCard { pick }
            } else {
                RunPhase::Presenter { pick, kind }
            },
            (RunPhase::Device { .. }, RunEvent::Failed) => RunPhase::Failed {
                error: RunError::Device,
            },
            (RunPhase::CloneCard { pick }, RunEvent::Succeeded) => RunPhase::Presenter {
                pick,
                kind: PresenterKind::Kms,
            },
            (RunPhase::CloneCard { .. }, RunEvent::Failed) => RunPhase::Failed {
                error: RunError::CloneCard,
            },
            (RunPhase::Presenter { .. }, RunEvent::Built { format }) => RunPhase::Renderer {
                format,
            },
            (
                RunPhase::Presenter { kind: PresenterKind::Kms, .. },
                RunEvent::Failed,
            ) => RunPhase::Failed { error: RunError::Presenter },
            (RunPhase::Renderer { .. }, RunEvent::Succeeded) => RunPhase::Wait,
            (RunPhase::Wait, RunEvent::Ticked { nanos }) => RunPhase::UpdateTime { nanos },
            (RunPhase::Wait, RunEvent::Interrupted) => RunPhase::Stopped,
            (RunPhase::Wait, RunEvent::Escaped) => RunPhase::Stopped,
            (RunPhase::UpdateTime { .. }, RunEvent::Succeeded) => RunPhase::BeginFrame,
            (RunPhase::BeginFrame, RunEvent::Begun { frame }) => RunPhase::RecordFrame { frame },
            (RunPhase::BeginFrame, RunEvent::Failed) => RunPhase::Failed {
                error: RunError::BeginFrame,
            },
            (RunPhase::RecordFrame { frame }, RunEvent::Succeeded) => RunPhase::EndFrame { frame },
            (RunPhase::EndFrame { .. }, RunEvent::Succeeded) => RunPhase::Wait,
            (RunPhase::EndFrame { .. }, RunEvent::Failed) => RunPhase::Failed {
                error: RunError::EndFrame,
            },
            _ => self.phase,
        };
        if let (RunPhase::Request { .. }, RunEvent::Requested { request }) = (self.phase, event) {
            self.backends = request.allowed_backends();
        }
        self.phase = phase;
    }
}

/// The kind of presenter that a phase has settled on, where it has.
pub open spec fn settled_kind(phase: RunPhase) -> Option<PresenterKind> {
    match phase {
        RunPhase::Adapter { kind, .. } => Some(kind),
        RunPhase::Device { kind, .. } => Some(kind),
        RunPhase::CloneCard { .. } => Some(PresenterKind::Kms),
        RunPhase::Presenter { kind, .. } => Some(kind),
        _ => None,
    }
}

impl Run {
    /// What the user asks for was to be read, and was this, at event `i`.
    pub open spec fn requested_at(
        self,
        events: Seq<RunEvent>,
        i: int,
        request: BackendRequest,
    ) -> bool {
        &&& 0 <= i < events.len()
        &&& self.at(events, i).wants() == RunAction::ReadRequest
        &&& events[i] == (RunEvent::Requested { request })
    }

    /// The backends are those that the user asked for.
    pub open spec fn uses_request(self, events: Seq<RunEvent>) -> bool {
        exists|i: int, request: BackendRequest| #[trigger]
            self.requested_at(events, i, request) && self.after(events).backends
                == request.allows()
    }
}

/// In this phase the program has not yet read what the user asks for, or it has given up.
pub open spec fn before_request(phase: RunPhase) -> bool {
    phase is Pick || phase is Request || phase is Failed
}

proof fn request_so_far(start: Run, events: Seq<RunEvent>)
    requires
        start.phase == RunPhase::Pick,
    ensures
        !before_request(start.after(events).phase) ==> start.uses_request(events),
    decreases events.len(),
{
    if events.len() > 0 {
        let earlier = events.drop_last();
        let n = earlier.len() as int;
        request_so_far(start, earlier);
        assert(events.take(n) =~= earlier);
        if let RunPhase::Request { .. } = start.after(earlier).phase {
            if let RunEvent::Requested { request } = events.last() {
                assert(start.requested_at(events, n, request));
            }
        } else if start.uses_request(earlier) {
            let (i, request) = choose|i: int, request: BackendRequest| #[trigger]
                start.requested_at(earlier, i, request) && start.after(earlier).backends
                    == request.allows();
            assert(events.take(i) =~= earlier.take(i));
            assert(start.requested_at(events, i, request));
        }
    }
}

proof fn settled_kinds_are_allowed(kms_cpu_scanout: bool, events: Seq<RunEvent>)
    ensures
        ({
            let run = Run::started(kms_cpu_scanout).after(events);
            &&& run.phase is Surface ==> run.backends.vulkan
            &&& settled_kind(run.phase) == Some(PresenterKind::Surface) ==> run.backends.vulkan
            &&& settled_kind(run.phase) == Some(PresenterKind::Kms) ==> kms_cpu_scanout
            &&& run.kms_cpu_scanout == kms_cpu_scanout
        }),
    decreases events.len(),
{
    if events.len() > 0 {
        settled_kinds_are_allowed(kms_cpu_scanout, events.drop_last());
    }
}

/// The instance is created with the backends that the user asked for. A surface is used only
/// where these hold Vulkan, and where they do not none is even tried; presenting without one is
/// used only where that is enabled.
pub proof fn presenters_are_allowed(kms_cpu_scanout: bool, events: Seq<RunEvent>)
    ensures
        ({
            let start = Run::started(kms_cpu_scanout);
            let run = start.after(events);
            &&& run.wants() is CreateInstance ==> start.uses_request(events)
            &&& run.wants() is CreateSurface ==> start.uses_request(events)
                && run.backends.vulkan
            &&& settled_kind(run.phase) == Some(PresenterKind::Surface) ==> start.uses_request(
                events,
            ) && run.backends.vulkan
            &&& settled_kind(run.phase) == Some(PresenterKind::Kms) ==> kms_cpu_scanout
        }),
{
    request_so_far(Run::started(kms_cpu_scanout), events);
    settled_kinds_are_allowed(kms_cpu_scanout, events);
}

/// Once the instance is created, the program falls back on its own: without Vulkan, or where no
/// surface can be created, it goes on to present without one if that is enabled, and gives up
/// if it is not; and where a surface is created, it is used.
pub proof fn missing_surface_falls_back(run: Run, pick: DrmPick, created: bool)
    requires
        run.phase == (RunPhase::Instance { pick }),
    ensures
        ({
            let instance = run.stepped(RunEvent::Succeeded);
            let settled = if run.backends.vulkan {
                instance.stepped(
                    if created {
                        RunEvent::Succeeded
                    } else {
                        RunEvent::Failed
                    },
                )
            } else {
                instance
            };
            &&& run.backends.vulkan ==> instance.wants() == (RunAction::CreateSurface {
                pick,
                plane: DRM_PLANE,
            })
            &&& run.backends.vulkan && created ==> settled.phase == (RunPhase::Adapter {
                pick,
                kind: PresenterKind::Surface,
            })
            &&& !(run.backends.vulkan && created) ==> settled.phase == (
            if run.kms_cpu_scanout {
                RunPhase::Adapter { pick, kind: PresenterKind::Kms }
            } else {
                RunPhase::Failed { error: RunError::ScanoutDisabled }
            })
        }),
{
}

impl Run {
    /// A tick was waited for, and at event `i` the user pressed Ctrl+C or ESC instead.
    pub open spec fn stopped_at(self, events: Seq<RunEvent>, i: int) -> bool {
        &&& 0 <= i < events.len()
        &&& self.at(events, i).wants() is WaitForTick
        &&& events[i] == RunEvent::Interrupted || events[i] == RunEvent::Escaped
    }
}

/// The program stops only where the user asked it to, with Ctrl+C or ESC, while it waited for a
/// tick; and while it waits for a tick, either of them stops it.
pub proof fn only_the_user_stops_it(start: Run, events: Seq<RunEvent>)
    requires
        start.phase == RunPhase::Pick,
    ensures
        start.after(events).wants() is Stop ==> exists|i: int| start.stopped_at(events, i),
        start.after(events).wants() is WaitForTick ==> start.after(events).stepped(
            RunEvent::Interrupted,
        ).wants() is Stop && start.after(events).stepped(RunEvent::Escaped).wants() is Stop,
    decreases events.len(),
{
    if events.len() > 0 {
        let earlier = events.drop_last();
        let n = earlier.len() as int;
        only_the_user_stops_it(start, earlier);
        assert(events.take(n) =~= earlier);
        if start.after(earlier).wants() is Stop {
            let i = choose|i: int| start.stopped_at(earlier, i);
            assert(events.take(i) =~= earlier.take(i));
            assert(start.stopped_at(events, i));
        } else if start.after(events).wants() is Stop {
            assert(start.stopped_at(events, n));
        }
    }
}

/// Every tick renders one frame: the renderer is told the time of the tick, a frame is begun,
/// and that frame is recorded and ended, in this order; then the next tick is waited for.
pub proof fn a_tick_renders_one_frame(run: Run, nanos: u128, frame: u64)
    requires
        run.phase == RunPhase::Wait,
    ensures
        ({
            let ticked = run.stepped(RunEvent::Ticked { nanos });
            let timed = ticked.stepped(RunEvent::Succeeded);
            let begun = timed.stepped(RunEvent::Begun { frame });
            let recorded = begun.stepped(RunEvent::Succeeded);
            &&& ticked.wants() == (RunAction::UpdateTime { nanos })
            &&& timed.wants() == RunAction::BeginFrame
            &&& begun.wants() == (RunAction::RecordFrame { frame })
            &&& recorded.wants() == (RunAction::EndFrame { frame })
            &&& recorded.stepped(RunEvent::Succeeded) == run
        }),
{
}

/// A tick and the frame that it renders: the events that brought the tick, told the time, began
/// and recorded the frame; the time that was told; and the frame.
pub struct Tick {
    pub ticked: int,
    pub told: int,
    pub begun: int,
    pub recorded: int,
    pub nanos: u128,
    pub frame: u64,
}

impl Run {
    /// The program wants this and nothing else behind event `i`, up to the state after `n`
    /// events.
    pub open spec fn wants_since(
        self,
        events: Seq<RunEvent>,
        i: int,
        n: int,
        action: RunAction,
    ) -> bool {
        forall|m: int| i < m <= n ==> (#[trigger] self.at(events, m)).wants() == action
    }

    /// A tick was waited for, and came at event `i`, at this time.
    pub open spec fn ticked_at(self, events: Seq<RunEvent>, i: int, nanos: u128) -> bool {
        &&& 0 <= i < events.len()
        &&& self.at(events, i).wants() is WaitForTick
        &&& events[i] == (RunEvent::Ticked { nanos })
    }

    /// Since the tick, nothing was done but to tell its time.
    pub open spec fn tells_since(self, events: Seq<RunEvent>, n: int, tick: Tick) -> bool {
        &&& tick.ticked < n
        &&& self.ticked_at(events, tick.ticked, tick.nanos)
        &&& self.wants_since(
            events,
            tick.ticked,
            n,
            RunAction::UpdateTime { nanos: tick.nanos },
        )
    }

    /// Since its time was told, nothing was done but to begin a frame.
    pub open spec fn begins_since(self, events: Seq<RunEvent>, n: int, tick: Tick) -> bool {
        &&& tick.told < n
        &&& self.tells_since(events, tick.told, tick)
        &&& events[tick.told] == RunEvent::Succeeded
        &&& self.wants_since(events, tick.told, n, RunAction::BeginFrame)
    }

    /// Since the frame was begun, nothing was done but to record it.
    pub open spec fn records_since(self, events: Seq<RunEvent>, n: int, tick: Tick) -> bool {
        &&& tick.begun < n
        &&& self.begins_since(events, tick.begun, tick)
        &&& events[tick.begun] == (RunEvent::Begun { frame: tick.frame })
        &&& self.wants_since(
            events,
            tick.begun,
            n,
            RunAction::RecordFrame { frame: tick.frame },
        )
    }

    /// Since the frame was recorded, nothing was done but to end it.
    pub open spec fn ends_since(self, events: Seq<RunEvent>, n: int, tick: Tick) -> bool {
        &&& tick.recorded < n
        &&& self.records_since(events, tick.recorded, tick)
        &&& events[tick.recorded] == RunEvent::Succeeded
        &&& self.wants_since(
            events,
            tick.recorded,
            n,
            RunAction::EndFrame { frame: tick.frame },
        )
    }

    /// The presenter was to be built, and was at event `i`, to take frames in this format.
    pub open spec fn presenter_at(
        self,
        events: Seq<RunEvent>,
        i: int,
        format: OutputFormat,
    ) -> bool {
        &&& 0 <= i < events.len()
        &&& self.at(events, i).wants() is BuildPresenter
        &&& events[i] == (RunEvent::Built { format })
    }

    /// The renderer was to be built for this format, and was at event `i`.
    pub open spec fn renderer_at(
        self,
        events: Seq<RunEvent>,
        i: int,
        format: OutputFormat,
    ) -> bool {
        &&& 0 <= i < events.len()
        &&& self.at(events, i).wants() == (RunAction::BuildRenderer { format })
        &&& events[i] == RunEvent::Succeeded
    }
}

proof fn one_more_event(start: Run, events: Seq<RunEvent>, n: int)
    requires
        0 <= n < events.len(),
    ensures
        start.at(events, n + 1) == start.at(events, n).stepped(events[n]),
{
    assert(events.take(n + 1).drop_last() =~= events.take(n));
}

proof fn telling_so_far(start: Run, events: Seq<RunEvent>, n: int)
    requires
        start.phase == RunPhase::Pick,
        0 <= n <= events.len(),
        start.at(events, n).wants() is UpdateTime,
    ensures
        exists|tick: Tick| start.tells_since(events, n, tick),
    decreases n,
{
    assert(start.at(events, 0) == start);
    let p = n - 1;
    one_more_event(start, events, p);
    if start.at(events, p).wants() is UpdateTime {
        telling_so_far(start, events, p);
        let tick = choose|tick: Tick| start.tells_since(events, p, tick);
        assert(start.tells_since(events, n, tick));
    } else if let RunEvent::Ticked { nanos } = events[p] {
        let tick = Tick { ticked: p, told: 0, begun: 0, recorded: 0, nanos, frame: 0 };
        assert(start.tells_since(events, n, tick));
    }
}

proof fn beginning_so_far(start: Run, events: Seq<RunEvent>, n: int)
    requires
        start.phase == RunPhase::Pick,
        0 <= n <= events.len(),
        start.at(events, n).wants() is BeginFrame,
    ensures
        exists|tick: Tick| start.begins_since(events, n, tick),
    decreases n,
{
    assert(start.at(events, 0) == start);
    let p = n - 1;
    one_more_event(start, events, p);
    if start.at(events, p).wants() is BeginFrame {
        beginning_so_far(start, events, p);
        let tick = choose|tick: Tick| start.begins_since(events, p, tick);
        assert(start.begins_since(events, n, tick));
    } else {
        telling_so_far(start, events, p);
        let tick = choose|tick: Tick| start.tells_since(events, p, tick);
        let next = Tick { told: p, ..tick };
        assert(start.tells_since(events, p, next));
        assert(start.begins_since(events, n, next));
    }
}

proof fn recording_so_far(start: Run, events: Seq<RunEvent>, n: int, frame: u64)
    requires
        start.phase == RunPhase::Pick,
        0 <= n <= events.len(),
        start.at(events, n).wants() == (RunAction::RecordFrame { frame }),
    ensures
        exists|tick: Tick| #[trigger]
            start.records_since(events, n, tick) && tick.frame == frame,
    decreases n,
{
    assert(start.at(events, 0) == start);
    let p = n - 1;
    one_more_event(start, events, p);
    if start.at(events, p).wants() == (RunAction::RecordFrame { frame }) {
        recording_so_far(start, events, p, frame);
        let tick = choose|tick: Tick| #[trigger]
            start.records_since(events, p, tick) && tick.frame == frame;
        assert(start.records_since(events, n, tick));
    } else {
        beginning_so_far(start, events, p);
        let tick = choose|tick: Tick| start.begins_since(events, p, tick);
        let next = Tick { begun: p, frame, ..tick };
        assert(start.tells_since(events, tick.told, next));
        assert(start.begins_since(events, p, next));
        assert(start.records_since(events, n, next));
    }
}

proof fn ending_so_far(start: Run, events: Seq<RunEvent>, n: int, frame: u64)
    requires
        start.phase == RunPhase::Pick,
        0 <= n <= events.len(),
        start.at(events, n).wants() == (RunAction::EndFrame { frame }),
    ensures
        exists|tick: Tick| #[trigger] start.ends_since(events, n, tick) && tick.frame == frame,
    decreases n,
{
    assert(start.at(events, 0) == start);
    let p = n - 1;
    one_more_event(start, events, p);
    if start.at(events, p).wants() == (RunAction::EndFrame { frame }) {
        ending_so_far(start, events, p, frame);
        let tick = choose|tick: Tick| #[trigger]
            start.ends_since(events, p, tick) && tick.frame == frame;
        assert(start.ends_since(events, n, tick));
    } else {
        recording_so_far(start, events, p, frame);
        let tick = choose|tick: Tick| #[trigger]
            start.records_since(events, p, tick) && tick.frame == frame;
        let next = Tick { recorded: p, ..tick };
        assert(start.tells_since(events, tick.told, next));
        assert(start.begins_since(events, tick.begun, next));
        assert(start.records_since(events, p, next));
        assert(start.ends_since(events, n, next));
    }
}

/// Whatever comes of the actions, what is done for a frame is done in one order, with nothing
/// in between: a tick came, its time was told, a frame was begun, and that same frame is
/// recorded and then ended.
pub proof fn frames_follow_their_tick(start: Run, events: Seq<RunEvent>)
    requires
        start.phase == RunPhase::Pick,
    ensures
        start.after(events).wants() is UpdateTime ==> exists|tick: Tick|
            start.tells_since(events, events.len() as int, tick),
        start.after(events).wants() is BeginFrame ==> exists|tick: Tick|
            start.begins_since(events, events.len() as int, tick),
        start.after(events).wants() matches RunAction::RecordFrame { frame } ==> exists|
            tick: Tick,
        | #[trigger] start.records_since(events, events.len() as int, tick) && tick.frame == frame,
        start.after(events).wants() matches RunAction::EndFrame { frame } ==> exists|tick: Tick|
            #[trigger] start.ends_since(events, events.len() as int, tick) && tick.frame == frame,
{
    let n = events.len() as int;
    assert(events.take(n) =~= events);
    match start.after(events).wants() {
        RunAction::UpdateTime { .. } => {
            telling_so_far(start, events, n);
        },
        RunAction::BeginFrame => {
            beginning_so_far(start, events, n);
        },
        RunAction::RecordFrame { frame } => {
            recording_so_far(start, events, n, frame);
        },
        RunAction::EndFrame { frame } => {
            ending_so_far(start, events, n, frame);
        },
        _ => {},
    }
}

/// The times that the renderer is told never decrease, as long as the clock that is read at
/// the ticks does not run backwards.
pub proof fn told_times_never_decrease(
    start: Run,
    events: Seq<RunEvent>,
    first: int,
    earlier: u128,
    second: int,
    later: u128,
)
    requires
        start.phase == RunPhase::Pick,
        0 <= first <= second <= events.len(),
        start.at(events, first).wants() == (RunAction::UpdateTime { nanos: earlier }),
        start.at(events, second).wants() == (RunAction::UpdateTime { nanos: later }),
        forall|i: int, j: int, s: u128, t: u128|
            i <= j && #[trigger] start.ticked_at(events, i, s) && #[trigger] start.ticked_at(
                events,
                j,
                t,
            ) ==> s <= t,
    ensures
        earlier <= later,
{
    telling_so_far(start, events, first);
    telling_so_far(start, events, second);
    let a = choose|tick: Tick| start.tells_since(events, first, tick);
    let b = choose|tick: Tick| start.tells_since(events, second, tick);
    assert(start.at(events, first).wants() == (RunAction::UpdateTime { nanos: a.nanos }));
    assert(start.at(events, second).wants() == (RunAction::UpdateTime { nanos: b.nanos }));
    if b.ticked < a.ticked {
        assert(start.at(events, a.ticked).wants() == (RunAction::UpdateTime { nanos: b.nanos }));
    }
}

/// How many steps lie behind the program, of those that lead up to the loop.
pub open spec fn stage(phase: RunPhase) -> int {
    match phase {
        RunPhase::Pick => 0,
        RunPhase::Request { .. } => 1,
        RunPhase::Instance { .. } => 2,
        RunPhase::Surface { .. } => 3,
        RunPhase::Adapter { .. } => 4,
        RunPhase::Device { .. } => 5,
        RunPhase::CloneCard { .. } => 6,
        RunPhase::Presenter { .. } => 7,
        RunPhase::Renderer { .. } => 8,
        _ => 9,
    }
}

/// The program renders frames, or has ended.
pub open spec fn in_loop(phase: RunPhase) -> bool {
    stage(phase) == 9
}

/// The steps that lead up to the loop are taken in one order, and none of them twice: once the
/// program has gone on from one of them, it is past it for good.
pub proof fn steps_are_taken_in_order(start: Run, events: Seq<RunEvent>, i: int, j: int)
    requires
        0 <= i <= j <= events.len(),
    ensures
        stage(start.at(events, i).phase) <= stage(start.at(events, j).phase),
        !in_loop(start.at(events, i).phase) && start.at(events, j).phase != start.at(
            events,
            i,
        ).phase ==> stage(start.at(events, i).phase) < stage(start.at(events, j).phase),
    decreases j - i,
{
    if i < j {
        steps_are_taken_in_order(start, events, i, j - 1);
        one_more_event(start, events, j - 1);
    }
}

proof fn format_so_far(start: Run, events: Seq<RunEvent>, n: int, format: OutputFormat)
    requires
        start.phase == RunPhase::Pick,
        0 <= n <= events.len(),
        start.at(events, n).wants() == (RunAction::BuildRenderer { format }),
    ensures
        exists|i: int| i < n && #[trigger] start.presenter_at(events, i, format),
    decreases n,
{
    assert(start.at(events, 0) == start);
    let p = n - 1;
    one_more_event(start, events, p);
    if start.at(events, p).wants() == (RunAction::BuildRenderer { format }) {
        format_so_far(start, events, p, format);
    } else {
        assert(start.presenter_at(events, p, format));
    }
}

proof fn renderer_so_far(start: Run, events: Seq<RunEvent>, n: int)
    requires
        start.phase == RunPhase::Pick,
        0 <= n <= events.len(),
        in_loop(start.at(events, n).phase),
        !(start.at(events, n).phase is Failed),
    ensures
        exists|i: int, format: OutputFormat| i < n && #[trigger] start.renderer_at(
            events,
            i,
            format,
        ),
    decreases n,
{
    assert(start.at(events, 0) == start);
    let p = n - 1;
    one_more_event(start, events, p);
    if let RunPhase::Renderer { format } = start.at(events, p).phase {
        assert(start.renderer_at(events, p, format));
    } else {
        renderer_so_far(start, events, p);
    }
}

/// The renderer is built for the format of the presenter: wherever it is to be built, the
/// presenter was built before, and takes frames in just the format that the renderer is built
/// for.
pub proof fn the_renderer_has_the_presenters_format(
    start: Run,
    events: Seq<RunEvent>,
    format: OutputFormat,
)
    requires
        start.phase == RunPhase::Pick,
        start.after(events).wants() == (RunAction::BuildRenderer { format }),
    ensures
        exists|i: int| start.presenter_at(events, i, format),
{
    let n = events.len() as int;
    assert(events.take(n) =~= events);
    format_so_far(start, events, n, format);
}

/// There is one renderer: it is built before the first tick is waited for, and never again.
pub proof fn one_renderer_is_built(start: Run, events: Seq<RunEvent>)
    requires
        start.phase == RunPhase::Pick,
    ensures
        start.after(events).wants() is WaitForTick ==> exists|i: int, format: OutputFormat|
            start.renderer_at(events, i, format),
        forall|i: int, j: int, first: OutputFormat, second: OutputFormat| #[trigger]
            start.renderer_at(events, i, first) && #[trigger] start.renderer_at(events, j, second)
                ==> i == j && first == second,
{
    let n = events.len() as int;
    assert(events.take(n) =~= events);
    if start.after(events).wants() is WaitForTick {
        renderer_so_far(start, events, n);
    }
    assert forall|i: int, j: int, first: OutputFormat, second: OutputFormat| #[trigger]
        start.renderer_at(events, i, first) && #[trigger] start.renderer_at(
            events,
            j,
            second,
        ) implies i == j && first == second by {
        if i < j {
            one_more_event(start, events, i);
            steps_are_taken_in_order(start, events, i + 1, j);
        } else if j < i {
            one_more_event(start, events, j);
            steps_are_taken_in_order(start, events, j + 1, i);
        }
    }
}

/// An error is final, and so is a stop.
pub proof fn the_end_is_final(run: Run, events: Seq<RunEvent>)
    requires
        run.phase == RunPhase::Stopped || run.phase is Failed,
    ensures
        run.after(events) == run,
    decreases events.len(),
{
    if events.len() > 0 {
        the_end_is_final(run, events.drop_last());
    }
}

/// What led up to the loop: the events that brought the pick, the request and the outcome of
/// creating a surface, where one was tried; the pick; and the request.
pub struct RunTrace {
    pub picked: int,
    pub requested: int,
    pub tried: int,
    pub pick: DrmPick,
    pub request: BackendRequest,
}

impl Run {
    /// A display was to be picked, and was.
    pub open spec fn has_pick(self, events: Seq<RunEvent>, n: int, t: RunTrace) -> bool {
        &&& 0 <= t.picked < n
        &&& self.at(events, t.picked).wants() == RunAction::PickDisplay
        &&& events[t.picked] == (RunEvent::Picked { pick: t.pick })
    }

    /// Then what the user asks for was to be read, and was.
    pub open spec fn has_request(self, events: Seq<RunEvent>, n: int, t: RunTrace) -> bool {
        &&& self.has_pick(events, n, t)
        &&& t.picked < t.requested < n
        &&& self.at(events, t.requested).wants() == RunAction::ReadRequest
        &&& events[t.requested] == (RunEvent::Requested { request: t.request })
    }

    /// Then a surface was to be created on plane 0 of the picked display, and that came to this.
    pub open spec fn tried_surface(
        self,
        events: Seq<RunEvent>,
        n: int,
        t: RunTrace,
        outcome: RunEvent,
    ) -> bool {
        &&& t.requested < t.tried < n
        &&& self.at(events, t.tried).wants() == (RunAction::CreateSurface {
            pick: t.pick,
            plane: 0,
        })
        &&& events[t.tried] == outcome
    }

    /// The kind of presenter is settled: a surface where one was created, which is tried only
    /// where GL is not all that the user asks for; and none where presenting without one is
    /// enabled, and GL is all that the user asks for or no surface could be created.
    pub open spec fn settles(
        self,
        events: Seq<RunEvent>,
        n: int,
        t: RunTrace,
        kind: PresenterKind,
    ) -> bool {
        &&& self.has_request(events, n, t)
        &&& match kind {
            PresenterKind::Surface => t.request != BackendRequest::Gl && self.tried_surface(
                events,
                n,
                t,
                RunEvent::Succeeded,
            ),
            PresenterKind::Kms => self.kms_cpu_scanout && (t.request == BackendRequest::Gl
                || self.tried_surface(events, n, t, RunEvent::Failed)),
        }
    }

    /// Vulkan is allowed exactly where the user does not ask for GL alone, and GL exactly where
    /// the user does not ask for Vulkan alone.
    pub open spec fn allows_request(backends: Backends, request: BackendRequest) -> bool {
        &&& backends.vulkan <==> request != BackendRequest::Gl
        &&& backends.gl <==> request != BackendRequest::Vulkan
    }
}

/// A phase holds just what the steps before it told.
pub open spec fn holds_trace(start: Run, events: Seq<RunEvent>, n: int, t: RunTrace) -> bool {
    let run = start.at(events, n);
    &&& run.kms_cpu_scanout == start.kms_cpu_scanout
    &&& match run.phase {
        RunPhase::Pick => true,
        RunPhase::Request { pick } => start.has_pick(events, n, t) && pick == t.pick,
        RunPhase::Instance { pick } => start.has_request(events, n, t) && pick == t.pick
            && Run::allows_request(run.backends, t.request),
        RunPhase::Surface { pick } => start.has_request(events, n, t) && pick == t.pick
            && t.request != BackendRequest::Gl,
        RunPhase::Adapter { pick, kind } => start.settles(events, n, t, kind) && pick == t.pick,
        RunPhase::Device { pick, kind } => start.settles(events, n, t, kind) && pick == t.pick,
        RunPhase::CloneCard { pick } => start.settles(events, n, t, PresenterKind::Kms) && pick
            == t.pick,
        RunPhase::Presenter { pick, kind } => start.settles(events, n, t, kind) && pick == t.pick,
        _ => true,
    }
}

#[verifier::spinoff_prover]
proof fn trace_so_far(start: Run, events: Seq<RunEvent>, n: int) -> (t: RunTrace)
    requires
        start.phase == RunPhase::Pick,
        0 <= n <= events.len(),
    ensures
        holds_trace(start, events, n, t),
    decreases n,
{
    if n == 0 {
        assert(start.at(events, 0) == start);
        arbitrary()
    } else {
        let p = n - 1;
        let t = trace_so_far(start, events, p);
        one_more_event(start, events, p);
        match (start.at(events, p).phase, events[p]) {
            (RunPhase::Pick, RunEvent::Picked { pick }) => RunTrace { picked: p, pick, ..t },
            (RunPhase::Request { .. }, RunEvent::Requested { request }) => RunTrace {
                requested: p,
                request,
                ..t
            },
            (RunPhase::Surface { .. }, _) => RunTrace { tried: p, ..t },
            _ => t,
        }
    }
}

impl Run {
    /// The program has read this request behind this pick, and has come to want this action.
    pub open spec fn comes_to(
        self,
        events: Seq<RunEvent>,
        t: RunTrace,
        action: RunAction,
    ) -> bool {
        let n = events.len() as int;
        &&& action matches RunAction::CreateInstance { backends, flags } ==> self.has_request(
            events,
            n,
            t,
        ) && Run::allows_request(backends, t.request) && flags == 0
        &&& action matches RunAction::CreateSurface { pick, plane } ==> self.has_request(
            events,
            n,
            t,
        ) && pick == t.pick && plane == 0 && t.request != BackendRequest::Gl
        &&& action matches RunAction::RequestAdapter { kind, options } ==> self.settles(
            events,
            n,
            t,
            kind,
        ) && options.high_performance && !options.force_fallback_adapter && (
        options.compatible_surface <==> kind == PresenterKind::Surface)
        &&& action matches RunAction::RequestDevice { kind } ==> self.settles(events, n, t, kind)
        &&& action is CloneCard ==> self.settles(events, n, t, PresenterKind::Kms)
        &&& action matches RunAction::BuildPresenter { kind, pick } ==> self.settles(
            events,
            n,
            t,
            kind,
        ) && pick == t.pick
    }
}

/// What the program does before its loop, in terms of what it was told. The instance is created
/// without flags, with Vulkan exactly where the user does not ask for GL alone, and with GL
/// exactly where the user does not ask for Vulkan alone. A surface is created on plane 0 of the
/// display that was picked, and not where the user asks for GL alone. The adapter and the device
/// are requested, and the presenter is built for that display, with a surface exactly where one
/// was created, and without one only where that is enabled; the adapter with the highest
/// performance, never one that falls back on software, and able to present to the surface exactly
/// where there is one.
pub proof fn the_program_does_what_it_was_told(start: Run, events: Seq<RunEvent>)
    requires
        start.phase == RunPhase::Pick,
    ensures
        exists|t: RunTrace| start.comes_to(events, t, start.after(events).wants()),
{
    let n = events.len() as int;
    assert(events.take(n) =~= events);
    let t = trace_so_far(start, events, n);
    assert(start.comes_to(events, t, start.after(events).wants()));
}

/// How the program goes on before its loop while everything succeeds, action by action: it picks
/// a display, reads what the user asks for, creates the instance and, where Vulkan is allowed, a
/// surface; requests an adapter and a device; duplicates the handle of the card where it presents
/// without a surface; and builds the presenter and, for the format of that, the renderer. Then it
/// waits for ticks that are 16 milliseconds apart.
pub proof fn the_program_goes_on(
    run: Run,
    pick: DrmPick,
    request: BackendRequest,
    format: OutputFormat,
)
    ensures
        Run::started(run.kms_cpu_scanout).wants() == RunAction::PickDisplay,
        Run::started(run.kms_cpu_scanout).kms_cpu_scanout == run.kms_cpu_scanout,
        ({
            let next = run.stepped(RunEvent::Succeeded).wants();
            &&& run.wants() is PickDisplay ==> run.stepped(RunEvent::Picked { pick }).wants()
                == RunAction::ReadRequest
            &&& run.wants() is ReadRequest ==> run.stepped(
                RunEvent::Requested { request },
            ).wants() is CreateInstance
            &&& run.wants() matches RunAction::CreateInstance { backends, .. } ==> (
            next is CreateSurface <==> backends.vulkan)
            &&& run.wants() matches RunAction::CreateInstance { backends, .. } ==> (
            !backends.vulkan ==> without_surface(run.kms_cpu_scanout, next))
            &&& run.wants() is CreateSurface ==> requests_adapter(next, PresenterKind::Surface)
            &&& run.wants() is CreateSurface ==> without_surface(
                run.kms_cpu_scanout,
                run.stepped(RunEvent::Failed).wants(),
            )
            &&& run.wants() matches RunAction::RequestAdapter { kind, .. } ==> next == (
            RunAction::RequestDevice { kind })
            &&& run.wants() == (RunAction::RequestDevice { kind: PresenterKind::Kms }) ==> next
                == RunAction::CloneCard
            &&& run.wants() == (RunAction::RequestDevice { kind: PresenterKind::Surface })
                ==> builds_presenter(next, PresenterKind::Surface)
            &&& run.wants() is CloneCard ==> builds_presenter(next, PresenterKind::Kms)
            &&& run.wants() is BuildPresenter ==> run.stepped(RunEvent::Built { format }).wants()
                == (RunAction::BuildRenderer { format })
            &&& run.wants() is BuildRenderer ==> next == (RunAction::WaitForTick { millis: 16 })
            &&& run.wants() is WaitForTick ==> run.wants() == (RunAction::WaitForTick {
                millis: 16,
            })
        }),
{
}

/// The action requests an adapter for this kind of presenter.
pub open spec fn requests_adapter(action: RunAction, kind: PresenterKind) -> bool {
    action matches RunAction::RequestAdapter { kind: k, .. } && k == kind
}

/// The action builds this kind of presenter.
pub open spec fn builds_presenter(action: RunAction, kind: PresenterKind) -> bool {
    action matches RunAction::BuildPresenter { kind: k, .. } && k == kind
}

/// The action is what is done where there is no surface: an adapter to present without one is
/// requested where that is enabled, and the program gives up where it is not.
pub open spec fn without_surface(kms_cpu_scanout: bool, action: RunAction) -> bool {
    if kms_cpu_scanout {
        requests_adapter(action, PresenterKind::Kms)
    } else {
        action == (RunAction::Fail { error: RunError::ScanoutDisabled })
    }
}

/// Where the program fails: each action that can fail has its own error, the others cannot, and
/// an error or a stop is final. What does not answer an action changes nothing.
pub proof fn the_program_fails_where_it_is(run: Run, event: RunEvent)
    ensures
        ({
            let failed = run.stepped(RunEvent::Failed);
            let error = |error: RunError| RunAction::Fail { error };
            &&& run.wants() is PickDisplay ==> failed.wants() == error(RunError::Pick)
            &&& run.wants() matches RunAction::RequestAdapter { kind, .. } ==> failed.wants()
                == error(RunError::Adapter { kind })
            &&& run.wants() is RequestDevice ==> failed.wants() == error(RunError::Device)
            &&& run.wants() is CloneCard ==> failed.wants() == error(RunError::CloneCard)
            &&& builds_presenter(run.wants(), PresenterKind::Kms) ==> failed.wants() == error(
                RunError::Presenter,
            )
            &&& run.wants() is BeginFrame ==> failed.wants() == error(RunError::BeginFrame)
            &&& run.wants() is EndFrame ==> failed.wants() == error(RunError::EndFrame)
            &&& run.wants() is ReadRequest || run.wants() is CreateInstance || builds_presenter(
                run.wants(),
                PresenterKind::Surface,
            ) || run.wants() is BuildRenderer || run.wants() is WaitForTick
                || run.wants() is UpdateTime || run.wants() is RecordFrame ==> failed == run
        }),
        run.wants() is Stop || run.wants() is Fail ==> run.stepped(event) == run,
        event is Picked && !(run.wants() is PickDisplay) ==> run.stepped(event) == run,
        event is Requested && !(run.wants() is ReadRequest) ==> run.stepped(event) == run,
        event is Built && !(run.wants() is BuildPresenter) ==> run.stepped(event) == run,
        event is Begun && !(run.wants() is BeginFrame) ==> run.stepped(event) == run,
        (event is Ticked || event is Interrupted || event is Escaped)
            && !(run.wants() is WaitForTick) ==> run.stepped(event) == run,
        event is Succeeded && (run.wants() is PickDisplay || run.wants() is ReadRequest
            || run.wants() is BuildPresenter || run.wants() is WaitForTick
            || run.wants() is BeginFrame) ==> run.stepped(event) == run,
{
}

} // verus!
