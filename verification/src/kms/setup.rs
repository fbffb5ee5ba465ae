//! Setting a presenter up: finding the connector, its encoder and CRTC, making two cleared
//! buffers, and showing the first of them.

use vstd::prelude::*;

use crate::errors::{Report, Site};
use crate::kms::present::{optional_path, DbBuf, KmsCpuPresenter};
use crate::kms::scanout::{readback_row, ScanoutLayout, ROW_ALIGNMENT};
use crate::kms::DrmPick;

verus! {

/// The code of the XRGB8888 format: the characters "XR24", the first of them lowest.
pub const FOURCC_XRGB8888: u32 = 0x3432_5258;

/// The position of the mode that is set among those of the connector.
pub const FIRST_MODE: usize = 0;

/// The bits per pixel of a dumb buffer.
pub const BUFFER_BPP: u32 = 32;

/// The color depth of a framebuffer.
pub const BUFFER_DEPTH: u32 = 24;

/// What a connector says of itself: whether a display is connected, how many modes it has,
/// and its encoders.
#[derive(Debug)]
pub struct ConnectorSetup {
    pub connected: bool,
    pub modes: usize,
    pub encoders: Vec<u32>,
}

/// The content of a `ConnectorSetup`.
pub struct ConnectorSetupView {
    pub connected: bool,
    pub modes: int,
    pub encoders: Seq<u32>,
}

impl View for ConnectorSetup {
    type V = ConnectorSetupView;

    open spec fn view(&self) -> ConnectorSetupView {
        ConnectorSetupView {
            connected: self.connected,
            modes: self.modes as int,
            encoders: self.encoders@,
        }
    }
}

impl ConnectorSetupView {
    /// Something can be shown on the connector.
    pub open spec fn usable(self) -> bool {
        self.connected && self.modes > 0
    }
}

/// Why a presenter could not be set up.
#[derive(Clone, Copy, Debug, PartialEq, Eq, Structural)]
pub enum SetupError {
    /// The card did not list its resources.
    Resources,
    /// No connector is connected and has a mode.
    NoConnector,
    /// The connector has no encoder.
    NoEncoder,
    /// The encoder gave no answer.
    Encoder,
    /// The encoder has no CRTC.
    NoCrtc,
    /// A device operation failed.
    Device { site: Site },
}

impl SetupError {
    /// The words in which the error is reported.
    pub open spec fn words(self) -> Seq<char> {
        match self {
            SetupError::Resources => "resource_handles"@,
            SetupError::NoConnector => "no connected connector found"@,
            SetupError::NoEncoder => "no encoder for connector"@,
            SetupError::Encoder => "get_encoder"@,
            SetupError::NoCrtc => "no crtc available"@,
            SetupError::Device { site } => site.name(),
        }
    }

    /// The words in which this error is reported.
    pub fn message(self) -> (message: &'static str)
        ensures
            message@ == self.words(),
    {
        match self {
            SetupError::Resources => "resource_handles",
            SetupError::NoConnector => "no connected connector found",
            SetupError::NoEncoder => "no encoder for connector",
            SetupError::Encoder => "get_encoder",
            SetupError::NoCrtc => "no crtc available",
            SetupError::Device { site } => site.label(),
        }
    }

    /// How this error is reported: with advice where a device operation failed; before the
    /// failure beneath it where the card or the encoder gave no answer; and alone where
    /// something is missing, which nothing lies beneath.
    pub fn report(self) -> (report: Report)
        ensures
            report == Report::Advised <==> self is Device,
            report == Report::Caused <==> self == SetupError::Resources || self
                == SetupError::Encoder,
            report == Report::Alone <==> self == SetupError::NoConnector || self
                == SetupError::NoEncoder || self == SetupError::NoCrtc,
            report != Report::Unchanged,
    {
        match self {
            SetupError::Resources => Report::Caused,
            SetupError::NoConnector => Report::Alone,
            SetupError::NoEncoder => Report::Alone,
            SetupError::Encoder => Report::Caused,
            SetupError::NoCrtc => Report::Alone,
            SetupError::Device { site } => site.report(),
        }
    }
}

/// The connector and the CRTC that are used.
#[derive(Clone, Copy, Debug, PartialEq, Eq, Structural)]
pub struct Route {
    pub connector_id: u32,
    pub crtc: u32,
}

/// How far the setup has come.
#[derive(Clone, Copy, Debug, PartialEq, Eq)]
pub enum SetupPhase {
    /// The connectors are to be listed.
    Resources,
    /// The connector at `index` is to be probed.
    Probe { index: usize },
    /// The encoder of the connector is to be asked for its CRTC.
    Encoder { connector_id: u32, encoder: u32 },
    /// A buffer is to be created, behind the `first` where there is one.
    Create { route: Route, first: Option<DbBuf> },
    /// The buffer that was created is to be mapped and cleared.
    Clear { route: Route, first: Option<DbBuf>, pitch: u32 },
    /// The buffer that was cleared is to become a framebuffer.
    Attach { route: Route, first: Option<DbBuf>, pitch: u32 },
    /// The first buffer is to be shown.
    Show { route: Route, bufs: [DbBuf; 2] },
    /// The setup is complete.
    Ready { route: Route, bufs: [DbBuf; 2] },
    /// The setup failed.
    Failed { error: SetupError },
}

/// What the setup does next.
#[derive(Clone, Copy, Debug, PartialEq, Eq, Structural)]
pub enum SetupAction {
    /// List the connectors.
    ListResources,
    /// Ask this connector what it says of itself, and have it probed anew where that is forced.
    ProbeConnector { connector_id: u32, force: bool },
    /// Ask this encoder for its CRTC.
    GetEncoder { encoder: u32 },
    /// Create a dumb buffer of this size, in the format with this code.
    CreateDumbBuffer { width: u32, height: u32, format: u32, bpp: u32 },
    /// Map this buffer and clear it.
    ClearBuffer { buffer: usize },
    /// Make a framebuffer of this buffer.
    AddFramebuffer { buffer: usize, depth: u32, bpp: u32 },
    /// Show this framebuffer from (`x`, `y`) on, in the mode of the connector at position `mode`.
    SetCrtc { crtc: u32, fb: u32, x: u32, y: u32, connector_id: u32, mode: usize },
    /// The presenter can be built.
    Done,
    /// Report this error.
    Fail { error: SetupError },
}

/// What came of an action.
#[derive(Debug)]
pub enum SetupEvent {
    Failed,
    /// The connectors of the card.
    Resources(Vec<u32>),
    /// What the connector says of itself.
    Connector(ConnectorSetup),
    /// The CRTC of the encoder, if it has one.
    Encoder(Option<u32>),
    /// A buffer was created, with rows of this many bytes.
    Created { pitch: u32 },
    /// The buffer was cleared.
    Cleared,
    /// The framebuffer that was made of the buffer.
    Attached { fb: u32 },
    /// The first buffer is shown.
    Shown,
}

/// The content of a `SetupEvent`.
pub enum SetupEventView {
    Failed,
    Resources(Seq<u32>),
    Connector(ConnectorSetupView),
    Encoder(Option<u32>),
    Created { pitch: u32 },
    Cleared,
    Attached { fb: u32 },
    Shown,
}

impl View for SetupEvent {
    type V = SetupEventView;

    open spec fn view(&self) -> SetupEventView {
        match self {
            SetupEvent::Failed => SetupEventView::Failed,
            SetupEvent::Resources(connectors) => SetupEventView::Resources(connectors@),
            SetupEvent::Connector(info) => SetupEventView::Connector(info@),
            SetupEvent::Encoder(crtc) => SetupEventView::Encoder(*crtc),
            SetupEvent::Created { pitch } => SetupEventView::Created { pitch: *pitch },
            SetupEvent::Cleared => SetupEventView::Cleared,
            SetupEvent::Attached { fb } => SetupEventView::Attached { fb: *fb },
            SetupEvent::Shown => SetupEventView::Shown,
        }
    }
}

/// The setup of a presenter for an image of this size.
#[derive(Debug)]
pub struct PresenterSetup {
    width: u32,
    height: u32,
    connectors: Vec<u32>,
    phase: SetupPhase,
}

/// The content of a `PresenterSetup`.
pub struct SetupView {
    pub width: u32,
    pub height: u32,
    pub connectors: Seq<u32>,
    pub phase: SetupPhase,
}

impl View for PresenterSetup {
    type V = SetupView;

    closed spec fn view(&self) -> SetupView {
        SetupView {
            width: self.width,
            height: self.height,
            connectors: self.connectors@,
            phase: self.phase,
        }
    }
}

/// The setup at the connector at `index`, or failed where there is none.
pub open spec fn probe_phase(connectors: Seq<u32>, index: int) -> SetupPhase {
    if index < connectors.len() {
        SetupPhase::Probe { index: index as usize }
    } else {
        SetupPhase::Failed { error: SetupError::NoConnector }
    }
}

/// The setup once this connector is chosen.
pub open spec fn chosen_phase(connector_id: u32, info: ConnectorSetupView) -> SetupPhase {
    if info.encoders.len() > 0 {
        SetupPhase::Encoder { connector_id, encoder: info.encoders[0] }
    } else {
        SetupPhase::Failed { error: SetupError::NoEncoder }
    }
}

/// The place at which creating a buffer is reported to have failed.
pub open spec fn creation_site(first: Option<DbBuf>) -> Site {
    if first is None {
        Site::CreateFirstBuffer
    } else {
        Site::CreateSecondBuffer
    }
}

/// The number of the buffer that is being made.
pub open spec fn buffer_number(first: Option<DbBuf>) -> usize {
    if first is None {
        0
    } else {
        1
    }
}

/// The setup once a device operation failed.
pub open spec fn device_failure(site: Site) -> SetupPhase {
    SetupPhase::Failed { error: SetupError::Device { site } }
}

impl SetupView {
    /// The image is not empty and its rows are not too long, and a connector that is to be
    /// probed is one of the card's.
    pub open spec fn wf(self) -> bool {
        &&& 1 <= self.width
        &&& 1 <= self.height
        &&& 4 * self.width + ROW_ALIGNMENT - 1 <= u32::MAX
        &&& self.connectors.len() <= usize::MAX
        &&& self.phase matches SetupPhase::Probe { index } ==> index < self.connectors.len()
    }

    /// What the setup does next.
    pub open spec fn wants(self) -> SetupAction {
        match self.phase {
            SetupPhase::Resources => SetupAction::ListResources,
            SetupPhase::Probe { index } => SetupAction::ProbeConnector {
                connector_id: self.connectors[index as int],
                force: true,
            },
            SetupPhase::Encoder { encoder, .. } => SetupAction::GetEncoder { encoder },
            SetupPhase::Create { .. } => SetupAction::CreateDumbBuffer {
                width: self.width,
                height: self.height,
                format: FOURCC_XRGB8888,
                bpp: BUFFER_BPP,
            },
            SetupPhase::Clear { first, .. } => SetupAction::ClearBuffer {
                buffer: buffer_number(first),
            },
            SetupPhase::Attach { first, .. } => SetupAction::AddFramebuffer {
                buffer: buffer_number(first),
                depth: BUFFER_DEPTH,
                bpp: BUFFER_BPP,
            },
            SetupPhase::Show { route, bufs } => SetupAction::SetCrtc {
                crtc: route.crtc,
                fb: bufs@[0].fb,
                x: 0,
                y: 0,
                connector_id: route.connector_id,
                mode: FIRST_MODE,
            },
            SetupPhase::Ready { .. } => SetupAction::Done,
            SetupPhase::Failed { error } => SetupAction::Fail { error },
        }
    }

    /// The phase once an action came to this. What does not answer the action changes nothing.
    pub open spec fn next_phase(self, event: SetupEventView) -> SetupPhase {
        match (self.phase, event) {
            (SetupPhase::Resources, SetupEventView::Resources(connectors)) => probe_phase(
                connectors,
                0,
            ),
            (SetupPhase::Resources, SetupEventView::Failed) => SetupPhase::Failed {
                error: SetupError::Resources,
            },
            (SetupPhase::Probe { index }, SetupEventView::Connector(info)) => if info.usable() {
                chosen_phase(self.connectors[index as int], info)
            } else {
                probe_phase(self.connectors, index + 1)
            },
            (SetupPhase::Probe { index }, SetupEventView::Failed) => probe_phase(
                self.connectors,
                index + 1,
            ),
            (
                SetupPhase::Encoder { connector_id, .. },
                SetupEventView::Encoder(Some(crtc)),
            ) => SetupPhase::Create { route: Route { connector_id, crtc }, first: None },
            (SetupPhase::Encoder { .. }, SetupEventView::Encoder(None)) => SetupPhase::Failed {
                error: SetupError::NoCrtc,
            },
            (SetupPhase::Encoder { .. }, SetupEventView::Failed) => SetupPhase::Failed {
                error: SetupError::Encoder,
            },
            (SetupPhase::Create { route, first }, SetupEventView::Created { pitch }) => {
                SetupPhase::Clear { route, first, pitch }
            },
            (SetupPhase::Create { first, .. }, SetupEventView::Failed) => device_failure(
                creation_site(first),
            ),
            (SetupPhase::Clear { route, first, pitch }, SetupEventView::Cleared) => {
                SetupPhase::Attach { route, first, pitch }
            },
            (SetupPhase::Clear { .. }, SetupEventView::Failed) => device_failure(Site::MapBuffer),
            (SetupPhase::Attach { route, first, pitch }, SetupEventView::Attached { fb }) => {
                match first {
                    None => SetupPhase::Create { route, first: Some(DbBuf { pitch, fb }) },
                    Some(first) => SetupPhase::Show { route, bufs: [first, DbBuf { pitch, fb }] },
                }
            },
            (SetupPhase::Attach { .. }, SetupEventView::Failed) => device_failure(
                Site::AddFramebuffer,
            ),
            (SetupPhase::Show { route, bufs }, SetupEventView::Shown) => SetupPhase::Ready {
                route,
                bufs,
            },
            (SetupPhase::Show { .. }, SetupEventView::Failed) => device_failure(Site::SetCrtc),
            _ => self.phase,
        }
    }

    /// The setup once an action came to this.
    pub open spec fn stepped(self, event: SetupEventView) -> SetupView {
        SetupView {
            phase: self.next_phase(event),
            connectors: match (self.phase, event) {
                (SetupPhase::Resources, SetupEventView::Resources(connectors)) => connectors,
                _ => self.connectors,
            },
            ..self
        }
    }
}

impl PresenterSetup {
    /// Starts to set up a presenter for the picked display. An image has at least one pixel.
    pub fn new(pick: DrmPick) -> (setup: Self)
        requires
            4 * pick.width + ROW_ALIGNMENT - 1 <= u32::MAX,
        ensures
            setup@.wf(),
            setup@.width == (if pick.width == 0 { 1 } else { pick.width as int }),
            setup@.height == (if pick.height == 0 { 1 } else { pick.height as int }),
            setup@.connectors == Seq::<u32>::empty(),
            setup@.phase == SetupPhase::Resources,
    {
        PresenterSetup {
            width: if pick.width == 0 { 1 } else { pick.width },
            height: if pick.height == 0 { 1 } else { pick.height },
            connectors: Vec::new(),
            phase: SetupPhase::Resources,
        }
    }

    /// What to do next.
    pub fn action(&self) -> (action: SetupAction)
        requires
            self@.wf(),
        ensures
            action == self@.wants(),
    {
        match self.phase {
            SetupPhase::Resources => SetupAction::ListResources,
            SetupPhase::Probe { index } => SetupAction::ProbeConnector {
                connector_id: self.connectors[index],
                force: true,
            },
            SetupPhase::Encoder { encoder, .. } => SetupAction::GetEncoder { encoder },
            SetupPhase::Create { .. } => SetupAction::CreateDumbBuffer {
                width: self.width,
                height: self.height,
                format: FOURCC_XRGB8888,
                bpp: BUFFER_BPP,
            },
            SetupPhase::Clear { first, .. } => SetupAction::ClearBuffer {
                buffer: if first.is_none() { 0 } else { 1 },
            },
            SetupPhase::Attach { first, .. } => SetupAction::AddFramebuffer {
                buffer: if first.is_none() { 0 } else { 1 },
                depth: BUFFER_DEPTH,
                bpp: BUFFER_BPP,
            },
            SetupPhase::Show { route, bufs } => SetupAction::SetCrtc {
                crtc: route.crtc,
                fb: bufs[0].fb,
                x: 0,
                y: 0,
                connector_id: route.connector_id,
                mode: FIRST_MODE,
            },
            SetupPhase::Ready { .. } => SetupAction::Done,
            SetupPhase::Failed { error } => SetupAction::Fail { error },
        }
    }

    fn probe(&self, index: usize) -> (phase: SetupPhase)
        ensures
            phase == probe_phase(self.connectors@, index as int),
    {
        if index < self.connectors.len() {
            SetupPhase::Probe { index }
        } else {
            SetupPhase::Failed { error: SetupError::NoConnector }
        }
    }

    fn device_failed(site: Site) -> (phase: SetupPhase)
        ensures
            phase == device_failure(site),
    {
        SetupPhase::Failed { error: SetupError::Device { site } }
    }

    /// Takes what came of an action.
    pub fn step(&mut self, event: SetupEvent)
        requires
            old(self)@.wf(),
        ensures
            final(self)@.wf(),
            final(self)@ == old(self)@.stepped(event@),
    {
        match (self.phase, event) {
            (SetupPhase::Resources, SetupEvent::Resources(connectors)) => {
                self.connectors = connectors;
                self.phase = self.probe(0);
            },
            (SetupPhase::Resources, SetupEvent::Failed) => {
                self.phase = SetupPhase::Failed { error: SetupError::Resources };
            },
            (SetupPhase::Probe { index }, SetupEvent::Connector(info)) => {
                self.phase =
                if info.connected && info.modes > 0 {
                    if info.encoders.len() > 0 {
                        SetupPhase::Encoder {
                            connector_id: self.connectors[index],
                            encoder: info.encoders[0],
                        }
                    } else {
                        SetupPhase::Failed { error: SetupError::NoEncoder }
                    }
                } else {
                    self.probe(index + 1)
                };
            },
            (SetupPhase::Probe { index }, SetupEvent::Failed) => {
                self.phase = self.probe(index + 1);
            },
            (SetupPhase::Encoder { connector_id, .. }, SetupEvent::Encoder(crtc)) => {
                self.phase =
                match crtc {
                    Some(crtc) => SetupPhase::Create {
                        route: Route { connector_id, crtc },
                        first: None,
                    },
                    None => SetupPhase::Failed { error: SetupError::NoCrtc },
                };
            },
            (SetupPhase::Encoder { .. }, SetupEvent::Failed) => {
                self.phase = SetupPhase::Failed { error: SetupError::Encoder };
            },
            (SetupPhase::Create { route, first }, SetupEvent::Created { pitch }) => {
                self.phase = SetupPhase::Clear { route, first, pitch };
            },
            (SetupPhase::Create { first, .. }, SetupEvent::Failed) => {
                self.phase =
                PresenterSetup::device_failed(
                    if first.is_none() {
                        Site::CreateFirstBuffer
                    } else {
                        Site::CreateSecondBuffer
                    },
                );
            },
            (SetupPhase::Clear { route, first, pitch }, SetupEvent::Cleared) => {
                self.phase = SetupPhase::Attach { route, first, pitch };
            },
            (SetupPhase::Clear { .. }, SetupEvent::Failed) => {
                self.phase = PresenterSetup::device_failed(Site::MapBuffer);
            },
            (SetupPhase::Attach { route, first, pitch }, SetupEvent::Attached { fb }) => {
                self.phase =
                match first {
                    None => SetupPhase::Create { route, first: Some(DbBuf { pitch, fb }) },
                    Some(first) => SetupPhase::Show { route, bufs: [first, DbBuf { pitch, fb }] },
                };
            },
            (SetupPhase::Attach { .. }, SetupEvent::Failed) => {
                self.phase = PresenterSetup::device_failed(Site::AddFramebuffer);
            },
            (SetupPhase::Show { route, bufs }, SetupEvent::Shown) => {
                self.phase = SetupPhase::Ready { route, bufs };
            },
            (SetupPhase::Show { .. }, SetupEvent::Failed) => {
                self.phase = PresenterSetup::device_failed(Site::SetCrtc);
            },
            _ => {},
        }
        assert(self.connectors.len() == self.connectors@.len());
    }

    /// The presenter, once the setup is complete. The first buffer is shown, so the second is
    /// the back buffer.
    pub fn finish(self, dump_path: Option<String>) -> (presenter: Option<KmsCpuPresenter>)
        requires
            self@.wf(),
        ensures
            match self@.phase {
                SetupPhase::Ready { route, bufs } => {
                    &&& presenter matches Some(presenter)
                    &&& presenter@.wf()
                    &&& presenter@.crtc == route.crtc
                    &&& presenter@.bufs == bufs@
                    &&& presenter@.layout.width == self@.width
                    &&& presenter@.layout.height == self@.height
                    &&& presenter@.layout.dumb_pitch == bufs@[0].pitch
                    &&& presenter@.layout.copy_bpr == readback_row(
                        self@.width as int,
                        bufs@[0].pitch as int,
                    )
                    &&& presenter@.back == 1
                    &&& presenter@.bufs[1 - presenter@.back].fb == bufs@[0].fb
                    &&& presenter@.bufs[presenter@.back].fb == bufs@[1].fb
                    &&& presenter@.dump_path == optional_path(dump_path)
                    &&& dump_path is None ==> presenter@.dump_path is None
                    &&& dump_path matches Some(path) ==> presenter@.dump_path == Some(path@)
                    &&& !presenter@.dumped
                },
                _ => presenter is None,
            },
    {
        match self.phase {
            SetupPhase::Ready { route, bufs } => {
                let layout: ScanoutLayout = ScanoutLayout::new(
                    self.width,
                    self.height,
                    bufs[0].pitch,
                );
                Some(KmsCpuPresenter::showing_first(route.crtc, bufs, layout, dump_path))
            },
            _ => None,
        }
    }
}

/// What the device makes of one buffer: the rows it creates it with, whether it can be mapped,
/// and the framebuffer it makes of it.
pub struct BufferAnswers {
    pub created: Option<u32>,
    pub cleared: bool,
    pub attached: Option<u32>,
}

/// A device as a setup finds it: its connectors, where it lists them, each with what it says
/// of itself, where it answers; the CRTC of each encoder that answers; what it makes of the
/// two buffers; and whether it shows the first of them.
pub struct DeviceAnswers {
    pub connectors: Option<Seq<(u32, Option<ConnectorSetupView>)>>,
    pub crtc_of: spec_fn(u32) -> Option<Option<u32>>,
    pub first: BufferAnswers,
    pub second: BufferAnswers,
    pub shown: bool,
}

/// The numbers of the connectors of a device.
pub open spec fn connector_ids(
    connectors: Seq<(u32, Option<ConnectorSetupView>)>,
) -> Seq<u32> {
    connectors.map_values(|c: (u32, Option<ConnectorSetupView>)| c.0)
}

impl BufferAnswers {
    /// The buffer that is made where it was created with rows of `pitch` bytes.
    pub open spec fn attached_buffer(self, pitch: u32) -> Result<DbBuf, Site> {
        match self.attached {
            Some(fb) => Ok(DbBuf { pitch, fb }),
            None => Err(Site::AddFramebuffer),
        }
    }

    /// The buffer that is made where it was created with rows of `pitch` bytes and is not
    /// cleared yet.
    pub open spec fn cleared_buffer(self, pitch: u32) -> Result<DbBuf, Site> {
        if self.cleared {
            self.attached_buffer(pitch)
        } else {
            Err(Site::MapBuffer)
        }
    }

    /// The buffer that is made, or the first operation that fails.
    pub open spec fn buffer(self, creation: Site) -> Result<DbBuf, Site> {
        match self.created {
            Some(pitch) => self.cleared_buffer(pitch),
            None => Err(creation),
        }
    }
}

impl DeviceAnswers {
    /// Where a setup ends once both buffers are made.
    pub open spec fn shown_end(self, route: Route, bufs: [DbBuf; 2]) -> SetupPhase {
        if self.shown {
            SetupPhase::Ready { route, bufs }
        } else {
            device_failure(Site::SetCrtc)
        }
    }

    /// Where a setup ends once making the second buffer came to this.
    pub open spec fn second_end(
        self,
        route: Route,
        first: DbBuf,
        second: Result<DbBuf, Site>,
    ) -> SetupPhase {
        match second {
            Ok(second) => self.shown_end(route, [first, second]),
            Err(site) => device_failure(site),
        }
    }

    /// Where a setup ends once making the first buffer came to this.
    pub open spec fn first_end(self, route: Route, first: Result<DbBuf, Site>) -> SetupPhase {
        match first {
            Ok(first) => self.second_end(
                route,
                first,
                self.second.buffer(Site::CreateSecondBuffer),
            ),
            Err(site) => device_failure(site),
        }
    }

    /// Where a setup ends once the connector and its encoder are known.
    pub open spec fn encoder_end(self, connector_id: u32, encoder: u32) -> SetupPhase {
        match (self.crtc_of)(encoder) {
            Some(Some(crtc)) => self.first_end(
                Route { connector_id, crtc },
                self.first.buffer(Site::CreateFirstBuffer),
            ),
            Some(None) => SetupPhase::Failed { error: SetupError::NoCrtc },
            None => SetupPhase::Failed { error: SetupError::Encoder },
        }
    }

    /// Where a setup ends once this connector is chosen.
    pub open spec fn connector_end(
        self,
        connector_id: u32,
        info: ConnectorSetupView,
    ) -> SetupPhase {
        if info.encoders.len() > 0 {
            self.encoder_end(connector_id, info.encoders[0])
        } else {
            SetupPhase::Failed { error: SetupError::NoEncoder }
        }
    }

    /// Where a setup ends that chooses among the connectors at or behind `from`: the first of
    /// them that something can be shown on is chosen.
    pub open spec fn probe_end(
        self,
        connectors: Seq<(u32, Option<ConnectorSetupView>)>,
        from: int,
    ) -> SetupPhase
        decreases connectors.len() - from,
    {
        if from >= connectors.len() {
            SetupPhase::Failed { error: SetupError::NoConnector }
        } else if connectors[from].1 is Some && connectors[from].1.unwrap().usable() {
            self.connector_end(connectors[from].0, connectors[from].1.unwrap())
        } else {
            self.probe_end(connectors, from + 1)
        }
    }

    /// Where a setup ends on this device.
    pub open spec fn end(self) -> SetupPhase {
        match self.connectors {
            Some(connectors) => self.probe_end(connectors, 0),
            None => SetupPhase::Failed { error: SetupError::Resources },
        }
    }
}

impl SetupView {
    /// What the device makes of the buffer that is being made.
    pub open spec fn buffer_answers(device: DeviceAnswers, first: Option<DbBuf>) -> BufferAnswers {
        if first is None {
            device.first
        } else {
            device.second
        }
    }

    /// What the action that the setup wants comes to on this device.
    pub open spec fn answer(self, device: DeviceAnswers) -> SetupEventView {
        match self.phase {
            SetupPhase::Resources => match device.connectors {
                Some(connectors) => SetupEventView::Resources(connector_ids(connectors)),
                None => SetupEventView::Failed,
            },
            SetupPhase::Probe { index } => match device.connectors.unwrap()[index as int].1 {
                Some(info) => SetupEventView::Connector(info),
                None => SetupEventView::Failed,
            },
            SetupPhase::Encoder { encoder, .. } => match (device.crtc_of)(encoder) {
                Some(crtc) => SetupEventView::Encoder(crtc),
                None => SetupEventView::Failed,
            },
            SetupPhase::Create { first, .. } => match SetupView::buffer_answers(
                device,
                first,
            ).created {
                Some(pitch) => SetupEventView::Created { pitch },
                None => SetupEventView::Failed,
            },
            SetupPhase::Clear { first, .. } => if SetupView::buffer_answers(
                device,
                first,
            ).cleared {
                SetupEventView::Cleared
            } else {
                SetupEventView::Failed
            },
            SetupPhase::Attach { first, .. } => match SetupView::buffer_answers(
                device,
                first,
            ).attached {
                Some(fb) => SetupEventView::Attached { fb },
                None => SetupEventView::Failed,
            },
            SetupPhase::Show { .. } => if device.shown {
                SetupEventView::Shown
            } else {
                SetupEventView::Failed
            },
            _ => SetupEventView::Failed,
        }
    }

    /// The connectors are those of the device, and one that is to be probed is among them.
    pub open spec fn matches(self, device: DeviceAnswers) -> bool {
        self.phase matches SetupPhase::Probe { index } ==> {
            &&& device.connectors matches Some(connectors)
            &&& self.connectors == connector_ids(connectors)
            &&& index < connectors.len()
        }
    }

    /// Where the setup ends on this device, from this state on.
    pub open spec fn ends_at(self, device: DeviceAnswers) -> SetupPhase {
        match self.phase {
            SetupPhase::Resources => device.end(),
            SetupPhase::Probe { index } => device.probe_end(
                device.connectors.unwrap(),
                index as int,
            ),
            SetupPhase::Encoder { connector_id, encoder } => device.encoder_end(
                connector_id,
                encoder,
            ),
            SetupPhase::Create { route, first } => match first {
                None => device.first_end(route, device.first.buffer(Site::CreateFirstBuffer)),
                Some(first) => device.second_end(
                    route,
                    first,
                    device.second.buffer(Site::CreateSecondBuffer),
                ),
            },
            SetupPhase::Clear { route, first, pitch } => match first {
                None => device.first_end(route, device.first.cleared_buffer(pitch)),
                Some(first) => device.second_end(
                    route,
                    first,
                    device.second.cleared_buffer(pitch),
                ),
            },
            SetupPhase::Attach { route, first, pitch } => match first {
                None => device.first_end(route, device.first.attached_buffer(pitch)),
                Some(first) => device.second_end(
                    route,
                    first,
                    device.second.attached_buffer(pitch),
                ),
            },
            SetupPhase::Show { route, bufs } => device.shown_end(route, bufs),
            SetupPhase::Ready { .. } => self.phase,
            SetupPhase::Failed { .. } => self.phase,
        }
    }

    /// How many actions the setup can still want, on a device with this many connectors.
    pub open spec fn actions_left(self, connectors: int) -> int {
        match self.phase {
            SetupPhase::Resources => connectors + 10,
            SetupPhase::Probe { index } => connectors - index + 9,
            SetupPhase::Encoder { .. } => 8,
            SetupPhase::Create { first, .. } => if first is None { 7 } else { 4 },
            SetupPhase::Clear { first, .. } => if first is None { 6 } else { 3 },
            SetupPhase::Attach { first, .. } => if first is None { 5 } else { 2 },
            SetupPhase::Show { .. } => 1,
            SetupPhase::Ready { .. } => 0,
            SetupPhase::Failed { .. } => 0,
        }
    }

    /// The setup after at most `steps` actions on this device.
    pub open spec fn after(self, device: DeviceAnswers, steps: nat) -> SetupView
        decreases steps,
    {
        if steps == 0 {
            self
        } else {
            self.stepped(self.answer(device)).after(device, (steps - 1) as nat)
        }
    }

    /// The setup is over.
    pub open spec fn over(self) -> bool {
        self.phase is Ready || self.phase is Failed
    }
}

impl DeviceAnswers {
    /// How many connectors the device lists.
    pub open spec fn connector_count(self) -> nat {
        match self.connectors {
            Some(connectors) => connectors.len(),
            None => 0,
        }
    }
}

proof fn answer_keeps_the_end(state: SetupView, device: DeviceAnswers)
    requires
        state.matches(device),
        device.connector_count() <= usize::MAX,
    ensures
        ({
            let next = state.stepped(state.answer(device));
            &&& next.matches(device)
            &&& next.ends_at(device) == state.ends_at(device)
            &&& !state.over() ==> next.actions_left(device.connector_count() as int)
                < state.actions_left(device.connector_count() as int)
            &&& state.over() ==> next == state
        }),
{
    if let SetupPhase::Probe { index } = state.phase {
        let connectors = device.connectors.unwrap();
        assert(index + 1 >= connectors.len() ==> device.probe_end(connectors, index + 1)
            == (SetupPhase::Failed { error: SetupError::NoConnector }));
    }
}

proof fn end_is_kept(state: SetupView, device: DeviceAnswers, steps: nat)
    requires
        state.matches(device),
        device.connector_count() <= usize::MAX,
    ensures
        state.after(device, steps).matches(device),
        state.after(device, steps).ends_at(device) == state.ends_at(device),
        steps >= state.actions_left(device.connector_count() as int) ==> state.after(
            device,
            steps,
        ).over(),
    decreases steps,
{
    answer_keeps_the_end(state, device);
    if steps > 0 {
        end_is_kept(state.stepped(state.answer(device)), device, (steps - 1) as nat);
    }
}

/// Whatever the device answers, a setup comes to an end. It ends with the first connector that
/// something can be shown on, the CRTC of its first encoder, and two buffers, the first of
/// which is shown; or, where an operation fails or something is missing, with the error of the
/// first step of these that does not succeed.
pub proof fn setup_takes_the_first_connector(setup: SetupView, device: DeviceAnswers)
    requires
        setup.phase == SetupPhase::Resources,
        device.connector_count() <= usize::MAX,
    ensures
        exists|steps: nat| (#[trigger] setup.after(device, steps)).over(),
        forall|steps: nat|
            (#[trigger] setup.after(device, steps)).over() ==> setup.after(device, steps).phase
                == device.end(),
{
    end_is_kept(setup, device, (device.connector_count() + 10) as nat);
    assert forall|steps: nat| (#[trigger] setup.after(device, steps)).over() implies setup.after(
        device,
        steps,
    ).phase == device.end() by {
        end_is_kept(setup, device, steps);
    }
}

impl SetupView {
    /// The setup once its actions came to all this.
    pub open spec fn after_events(self, events: Seq<SetupEventView>) -> SetupView
        decreases events.len(),
    {
        if events.len() == 0 {
            self
        } else {
            self.after_events(events.drop_last()).stepped(events.last())
        }
    }

    /// The setup once its actions came to the first `n` of these events.
    pub open spec fn at(self, events: Seq<SetupEventView>, n: int) -> SetupView {
        self.after_events(events.take(n))
    }

    /// This buffer was to be cleared, and was, at event `i`.
    pub open spec fn cleared_at(self, events: Seq<SetupEventView>, i: int, buffer: usize) -> bool {
        &&& 0 <= i < events.len()
        &&& self.at(events, i).wants() == (SetupAction::ClearBuffer { buffer })
        &&& events[i] is Cleared
    }

    /// The first buffer was cleared.
    pub open spec fn first_cleared(self, events: Seq<SetupEventView>) -> bool {
        exists|i: int| self.cleared_at(events, i, 0)
    }

    /// The first buffer was cleared, and then the second.
    pub open spec fn both_cleared(self, events: Seq<SetupEventView>) -> bool {
        exists|i: int, j: int|
            i < j && #[trigger] self.cleared_at(events, i, 0) && #[trigger] self.cleared_at(
                events,
                j,
                1,
            )
    }

    /// By this phase the first buffer was cleared.
    pub open spec fn behind_first(self) -> bool {
        match self.phase {
            SetupPhase::Create { first, .. } => first is Some,
            SetupPhase::Clear { first, .. } => first is Some,
            SetupPhase::Attach { .. } => true,
            _ => self.behind_both(),
        }
    }

    /// By this phase both buffers were cleared.
    pub open spec fn behind_both(self) -> bool {
        match self.phase {
            SetupPhase::Attach { first, .. } => first is Some,
            SetupPhase::Show { .. } => true,
            SetupPhase::Ready { .. } => true,
            _ => false,
        }
    }
}

proof fn cleared_earlier(
    setup: SetupView,
    events: Seq<SetupEventView>,
    i: int,
    buffer: usize,
)
    requires
        events.len() > 0,
        setup.cleared_at(events.drop_last(), i, buffer),
    ensures
        setup.cleared_at(events, i, buffer),
{
    assert(events.take(i) =~= events.drop_last().take(i));
}

/// How far a phase is in the order of the steps of a setup.
pub open spec fn stage(phase: SetupPhase) -> int {
    match phase {
        SetupPhase::Resources => 0,
        SetupPhase::Probe { .. } => 1,
        SetupPhase::Encoder { .. } => 2,
        SetupPhase::Create { first, .. } => if first is None { 3 } else { 6 },
        SetupPhase::Clear { first, .. } => if first is None { 4 } else { 7 },
        SetupPhase::Attach { first, .. } => if first is None { 5 } else { 8 },
        SetupPhase::Show { .. } => 9,
        SetupPhase::Ready { .. } => 10,
        SetupPhase::Failed { .. } => 10,
    }
}

/// A setup goes through its steps in one order, and takes none of them twice: it lists the
/// connectors, probes one after the other, asks one encoder, makes the first buffer and then
/// the second, each of them created, cleared and attached once, and shows the first one once.
pub proof fn a_setup_goes_in_order(setup: SetupView, events: Seq<SetupEventView>, i: int, j: int)
    requires
        0 <= i <= j <= events.len(),
        setup.connectors.len() <= usize::MAX,
        forall|n: int|
            0 <= n < events.len() ==> (#[trigger] events[n] matches SetupEventView::Resources(
                connectors,
            ) ==> connectors.len() <= usize::MAX),
    ensures
        ({
            let earlier = setup.at(events, i).phase;
            let later = setup.at(events, j).phase;
            &&& setup.at(events, j).connectors.len() <= usize::MAX
            &&& stage(earlier) <= stage(later)
            &&& later == earlier || stage(earlier) < stage(later) || match (earlier, later) {
                (SetupPhase::Probe { index }, SetupPhase::Probe { index: next }) => index < next,
                _ => false,
            }
        }),
    decreases j,
{
    if j > 0 {
        let p = j - 1;
        assert(events.take(j).drop_last() =~= events.take(p));
        assert(events.take(j).last() == events[p]);
        if i < j {
            a_setup_goes_in_order(setup, events, i, p);
        } else {
            a_setup_goes_in_order(setup, events, p, p);
        }
    }
}

proof fn clearing_so_far(setup: SetupView, events: Seq<SetupEventView>)
    requires
        setup.phase == SetupPhase::Resources,
    ensures
        setup.after_events(events).behind_first() ==> setup.first_cleared(events),
        setup.after_events(events).behind_both() ==> setup.both_cleared(events),
    decreases events.len(),
{
    if events.len() > 0 {
        let earlier = events.drop_last();
        let n = earlier.len() as int;
        clearing_so_far(setup, earlier);
        assert(events.take(n) =~= earlier);
        let before = setup.after_events(earlier);
        if setup.first_cleared(earlier) {
            let i = choose|i: int| setup.cleared_at(earlier, i, 0);
            cleared_earlier(setup, events, i, 0);
            if before.wants() == (SetupAction::ClearBuffer { buffer: 1 })
                && events.last() is Cleared {
                assert(setup.cleared_at(events, n, 1));
                assert(i < n);
            }
        }
        if before.wants() == (SetupAction::ClearBuffer { buffer: 0 }) && events.last() is Cleared {
            assert(setup.cleared_at(events, n, 0));
        }
        if setup.both_cleared(earlier) {
            let (i, j) = choose|i: int, j: int|
                i < j && #[trigger] setup.cleared_at(earlier, i, 0) && #[trigger] setup.cleared_at(
                    earlier,
                    j,
                    1,
                );
            cleared_earlier(setup, events, i, 0);
            cleared_earlier(setup, events, j, 1);
        }
    }
}

/// Nothing is shown before it is cleared: by the time the first buffer is to be shown, the
/// setup wanted the first buffer cleared and it was, and later the second and it was, whatever
/// came of the other actions.
pub proof fn buffers_are_cleared_before_they_are_shown(
    setup: SetupView,
    events: Seq<SetupEventView>,
)
    requires
        setup.phase == SetupPhase::Resources,
    ensures
        setup.after_events(events).wants() is SetCrtc ==> setup.both_cleared(events),
        setup.after_events(events).wants() is Done ==> setup.both_cleared(events),
{
    clearing_so_far(setup, events);
}

/// What a setup has gone through, by the events that brought each step, and what they told: the
/// connectors; the one of them that is used, and what it says of itself; the CRTC; and the two
/// buffers.
pub struct SetupTrace {
    pub listed: int,
    pub probed: int,
    pub routed: int,
    pub created: (int, int),
    pub cleared: (int, int),
    pub attached: (int, int),
    pub connectors: Seq<u32>,
    pub index: int,
    pub info: ConnectorSetupView,
    pub crtc: u32,
    pub pitch: (u32, u32),
    pub fb: (u32, u32),
}

impl SetupView {
    /// The connector at position `k` was probed at event `p`, and nothing can be shown on it: it
    /// gave no answer, is not connected, or has no mode.
    pub open spec fn passed_at(
        self,
        events: Seq<SetupEventView>,
        connectors: Seq<u32>,
        k: int,
        p: int,
    ) -> bool {
        &&& 0 <= p < events.len()
        &&& self.at(events, p).wants() == (SetupAction::ProbeConnector {
            connector_id: connectors[k],
            force: true,
        })
        &&& match events[p] {
            SetupEventView::Failed => true,
            SetupEventView::Connector(info) => !info.connected || info.modes <= 0,
            _ => false,
        }
    }

    /// Every connector before position `k` was probed, and nothing can be shown on it.
    pub open spec fn passed_before(
        self,
        events: Seq<SetupEventView>,
        connectors: Seq<u32>,
        k: int,
    ) -> bool {
        forall|j: int| 0 <= j < k ==> #[trigger] self.passed(events, connectors, j)
    }

    /// The connector at position `k` was probed, and nothing can be shown on it.
    pub open spec fn passed(
        self,
        events: Seq<SetupEventView>,
        connectors: Seq<u32>,
        k: int,
    ) -> bool {
        exists|p: int| self.passed_at(events, connectors, k, p)
    }

    /// The connectors were to be listed, and were.
    pub open spec fn lists(self, events: Seq<SetupEventView>, n: int, t: SetupTrace) -> bool {
        &&& 0 <= t.listed < n
        &&& self.at(events, t.listed).wants() == SetupAction::ListResources
        &&& events[t.listed] == SetupEventView::Resources(t.connectors)
    }

    /// The first connector that something can be shown on was found: it is connected, has a mode
    /// and an encoder.
    pub open spec fn finds(self, events: Seq<SetupEventView>, n: int, t: SetupTrace) -> bool {
        &&& self.lists(events, n, t)
        &&& t.listed < t.probed < n
        &&& 0 <= t.index < t.connectors.len()
        &&& self.passed_before(events, t.connectors, t.index)
        &&& self.at(events, t.probed).wants() == (SetupAction::ProbeConnector {
            connector_id: t.connectors[t.index],
            force: true,
        })
        &&& events[t.probed] == SetupEventView::Connector(t.info)
        &&& t.info.connected
        &&& t.info.modes > 0
        &&& t.info.encoders.len() > 0
    }

    /// The first encoder of that connector was asked for its CRTC, and has one.
    pub open spec fn routes(self, events: Seq<SetupEventView>, n: int, t: SetupTrace) -> bool {
        &&& self.finds(events, n, t)
        &&& t.probed < t.routed < n
        &&& self.at(events, t.routed).wants() == (SetupAction::GetEncoder {
            encoder: t.info.encoders[0],
        })
        &&& events[t.routed] == SetupEventView::Encoder(Some(t.crtc))
    }

    /// A buffer of the size of the image was created at event `i`, as XRGB8888 with 32 bits per
    /// pixel, and has rows of `pitch` bytes.
    pub open spec fn creates(self, events: Seq<SetupEventView>, i: int, pitch: u32) -> bool {
        &&& self.at(events, i).wants() == (SetupAction::CreateDumbBuffer {
            width: self.width,
            height: self.height,
            format: 0x3432_5258,
            bpp: 32,
        })
        &&& events[i] == (SetupEventView::Created { pitch })
    }

    /// A framebuffer was made of this buffer at event `i`, with a depth of 24 and 32 bits per
    /// pixel.
    pub open spec fn attaches(
        self,
        events: Seq<SetupEventView>,
        i: int,
        buffer: usize,
        fb: u32,
    ) -> bool {
        &&& self.at(events, i).wants() == (SetupAction::AddFramebuffer {
            buffer,
            depth: 24,
            bpp: 32,
        })
        &&& events[i] == (SetupEventView::Attached { fb })
    }

    /// The first buffer was created.
    pub open spec fn has_first(self, events: Seq<SetupEventView>, n: int, t: SetupTrace) -> bool {
        &&& self.routes(events, n, t)
        &&& t.routed < t.created.0 < n
        &&& self.creates(events, t.created.0, t.pitch.0)
    }

    /// It was cleared.
    pub open spec fn cleared_first(
        self,
        events: Seq<SetupEventView>,
        n: int,
        t: SetupTrace,
    ) -> bool {
        &&& self.has_first(events, n, t)
        &&& t.created.0 < t.cleared.0 < n
        &&& self.cleared_at(events, t.cleared.0, 0)
    }

    /// A framebuffer was made of it.
    pub open spec fn attached_first(
        self,
        events: Seq<SetupEventView>,
        n: int,
        t: SetupTrace,
    ) -> bool {
        &&& self.cleared_first(events, n, t)
        &&& t.cleared.0 < t.attached.0 < n
        &&& self.attaches(events, t.attached.0, 0, t.fb.0)
    }

    /// The second buffer was created.
    pub open spec fn has_second(self, events: Seq<SetupEventView>, n: int, t: SetupTrace) -> bool {
        &&& self.attached_first(events, n, t)
        &&& t.attached.0 < t.created.1 < n
        &&& self.creates(events, t.created.1, t.pitch.1)
    }

    /// It was cleared.
    pub open spec fn cleared_second(
        self,
        events: Seq<SetupEventView>,
        n: int,
        t: SetupTrace,
    ) -> bool {
        &&& self.has_second(events, n, t)
        &&& t.created.1 < t.cleared.1 < n
        &&& self.cleared_at(events, t.cleared.1, 1)
    }

    /// A framebuffer was made of it.
    pub open spec fn attached_second(
        self,
        events: Seq<SetupEventView>,
        n: int,
        t: SetupTrace,
    ) -> bool {
        &&& self.cleared_second(events, n, t)
        &&& t.cleared.1 < t.attached.1 < n
        &&& self.attaches(events, t.attached.1, 1, t.fb.1)
    }
}

impl SetupTrace {
    /// The connector and the CRTC that are used.
    pub open spec fn route(self) -> Route {
        Route { connector_id: self.connectors[self.index], crtc: self.crtc }
    }
}

/// A phase holds just what the steps before it told.
pub open spec fn holds_trace(
    setup: SetupView,
    events: Seq<SetupEventView>,
    n: int,
    t: SetupTrace,
) -> bool {
    let first = DbBuf { pitch: t.pitch.0, fb: t.fb.0 };
    let second = DbBuf { pitch: t.pitch.1, fb: t.fb.1 };
    let state = setup.at(events, n);
    &&& state.width == setup.width
    &&& state.height == setup.height
    &&& match state.phase {
        SetupPhase::Resources => true,
        SetupPhase::Probe { index } => {
            &&& setup.lists(events, n, t)
            &&& state.connectors == t.connectors
            &&& index < t.connectors.len()
            &&& setup.passed_before(events, t.connectors, index as int)
        },
        SetupPhase::Encoder { connector_id, encoder } => {
            &&& setup.finds(events, n, t)
            &&& connector_id == t.connectors[t.index]
            &&& encoder == t.info.encoders[0]
        },
        SetupPhase::Create { route, first: None } => setup.routes(events, n, t) && route
            == t.route(),
        SetupPhase::Create { route, first: Some(made) } => {
            &&& setup.attached_first(events, n, t)
            &&& route == t.route()
            &&& made == first
        },
        SetupPhase::Clear { route, first: None, pitch } => {
            &&& setup.has_first(events, n, t)
            &&& route == t.route()
            &&& pitch == t.pitch.0
        },
        SetupPhase::Clear { route, first: Some(made), pitch } => {
            &&& setup.has_second(events, n, t)
            &&& route == t.route()
            &&& made == first
            &&& pitch == t.pitch.1
        },
        SetupPhase::Attach { route, first: None, pitch } => {
            &&& setup.cleared_first(events, n, t)
            &&& route == t.route()
            &&& pitch == t.pitch.0
        },
        SetupPhase::Attach { route, first: Some(made), pitch } => {
            &&& setup.cleared_second(events, n, t)
            &&& route == t.route()
            &&& made == first
            &&& pitch == t.pitch.1
        },
        SetupPhase::Show { route, bufs } => {
            &&& setup.attached_second(events, n, t)
            &&& route == t.route()
            &&& bufs@ == seq![first, second]
        },
        SetupPhase::Ready { route, bufs } => {
            &&& setup.attached_second(events, n, t)
            &&& route == t.route()
            &&& bufs@ == seq![first, second]
        },
        SetupPhase::Failed { .. } => true,
    }
}

proof fn passed_once_more(
    setup: SetupView,
    events: Seq<SetupEventView>,
    connectors: Seq<u32>,
    k: int,
    p: int,
)
    requires
        setup.passed_before(events, connectors, k),
        setup.passed_at(events, connectors, k, p),
    ensures
        setup.passed_before(events, connectors, k + 1),
{
    assert(setup.passed(events, connectors, k));
}

#[verifier::spinoff_prover]
proof fn trace_so_far(setup: SetupView, events: Seq<SetupEventView>, n: int) -> (t: SetupTrace)
    requires
        setup.phase == SetupPhase::Resources,
        0 <= n <= events.len(),
        forall|i: int|
            0 <= i < events.len() ==> (#[trigger] events[i] matches SetupEventView::Resources(
                connectors,
            ) ==> connectors.len() <= usize::MAX),
    ensures
        holds_trace(setup, events, n, t),
    decreases n,
{
    if n == 0 {
        assert(setup.at(events, 0) == setup);
        arbitrary()
    } else {
        let p = n - 1;
        let t = trace_so_far(setup, events, p);
        assert(events.take(n).drop_last() =~= events.take(p));
        assert(events.take(n).last() == events[p]);
        let before = setup.at(events, p);
        assert(setup.at(events, n) == before.stepped(events[p]));
        match (before.phase, events[p]) {
            (SetupPhase::Resources, SetupEventView::Resources(connectors)) => {
                let next = SetupTrace { listed: p, connectors, ..t };
                assert(setup.passed_before(events, connectors, 0));
                next
            },
            (SetupPhase::Probe { index }, SetupEventView::Connector(info)) => {
                let next = SetupTrace { probed: p, index: index as int, info, ..t };
                if !(info.connected && info.modes > 0) {
                    assert(setup.passed_at(events, t.connectors, index as int, p));
                    passed_once_more(setup, events, t.connectors, index as int, p);
                }
                next
            },
            (SetupPhase::Probe { index }, SetupEventView::Failed) => {
                assert(setup.passed_at(events, t.connectors, index as int, p));
                passed_once_more(setup, events, t.connectors, index as int, p);
                t
            },
            (SetupPhase::Encoder { .. }, SetupEventView::Encoder(Some(crtc))) => {
                SetupTrace { routed: p, crtc, ..t }
            },
            (SetupPhase::Create { first: None, .. }, SetupEventView::Created { pitch }) => {
                SetupTrace { created: (p, 0), pitch: (pitch, 0), ..t }
            },
            (SetupPhase::Create { first: Some(_), .. }, SetupEventView::Created { pitch }) => {
                SetupTrace { created: (t.created.0, p), pitch: (t.pitch.0, pitch), ..t }
            },
            (SetupPhase::Clear { first: None, .. }, SetupEventView::Cleared) => {
                SetupTrace { cleared: (p, 0), ..t }
            },
            (SetupPhase::Clear { first: Some(_), .. }, SetupEventView::Cleared) => {
                SetupTrace { cleared: (t.cleared.0, p), ..t }
            },
            (SetupPhase::Attach { first: None, .. }, SetupEventView::Attached { fb }) => {
                SetupTrace { attached: (p, 0), fb: (fb, 0), ..t }
            },
            (SetupPhase::Attach { first: Some(made), .. }, SetupEventView::Attached { fb }) => {
                let next = SetupTrace {
                    attached: (t.attached.0, p),
                    fb: (t.fb.0, fb),
                    ..t
                };
                if let SetupPhase::Show { bufs, .. } = setup.at(events, n).phase {
                    assert(bufs@ =~= seq![made, DbBuf { pitch: t.pitch.1, fb }]);
                }
                next
            },
            _ => t,
        }
    }
}

impl SetupView {
    /// What was gone through ends in showing the first buffer: on the CRTC of the first encoder of
    /// the connector that was found, with that connector, in its first mode, from (0, 0) on.
    pub open spec fn shows_first(
        self,
        events: Seq<SetupEventView>,
        t: SetupTrace,
        action: SetupAction,
    ) -> bool {
        &&& self.attached_second(events, events.len() as int, t)
        &&& action == (SetupAction::SetCrtc {
            crtc: t.crtc,
            fb: t.fb.0,
            x: 0,
            y: 0,
            connector_id: t.connectors[t.index],
            mode: 0,
        })
    }

    /// What was gone through gave this CRTC and connector and these two buffers.
    pub open spec fn completes(
        self,
        events: Seq<SetupEventView>,
        t: SetupTrace,
        route: Route,
        bufs: [DbBuf; 2],
    ) -> bool {
        &&& self.attached_second(events, events.len() as int, t)
        &&& route.crtc == t.crtc
        &&& route.connector_id == t.connectors[t.index]
        &&& bufs@[0].fb == t.fb.0
        &&& bufs@[1].fb == t.fb.1
        &&& bufs@[0].pitch == t.pitch.0
        &&& bufs@[1].pitch == t.pitch.1
    }

    /// The first buffer was to be shown as this framebuffer on this CRTC, and was, at event `i`.
    pub open spec fn shown_at(
        self,
        events: Seq<SetupEventView>,
        i: int,
        crtc: u32,
        fb: u32,
    ) -> bool {
        &&& 0 <= i < events.len()
        &&& self.at(events, i).wants() matches SetupAction::SetCrtc { crtc: c, fb: f, .. }
        &&& c == crtc
        &&& f == fb
        &&& events[i] == SetupEventView::Shown
    }

    /// The first buffer was shown as this framebuffer on this CRTC.
    pub open spec fn was_shown(self, events: Seq<SetupEventView>, crtc: u32, fb: u32) -> bool {
        exists|i: int| self.shown_at(events, i, crtc, fb)
    }
}

/// Whatever events a setup has seen: where it wants something shown, it has listed the
/// connectors, found the first of them that is connected and has a mode, asked its first encoder
/// for the CRTC, and made two buffers of the size of the image, each of them created, cleared and
/// attached in this order; and what it wants shown is the framebuffer that was attached to the
/// first of them, on that CRTC and connector, in the connector's first mode, from (0, 0) on.
pub proof fn the_first_buffer_is_shown(setup: SetupView, events: Seq<SetupEventView>)
    requires
        setup.phase == SetupPhase::Resources,
        forall|i: int|
            0 <= i < events.len() ==> (#[trigger] events[i] matches SetupEventView::Resources(
                connectors,
            ) ==> connectors.len() <= usize::MAX),
    ensures
        setup.after_events(events).wants() is SetCrtc ==> exists|t: SetupTrace|
            setup.shows_first(events, t, setup.after_events(events).wants()),
{
    if setup.after_events(events).wants() is SetCrtc {
        let t = first_shown_trace(setup, events);
    }
}

#[verifier::spinoff_prover]
proof fn first_shown_trace(setup: SetupView, events: Seq<SetupEventView>) -> (t: SetupTrace)
    requires
        setup.phase == SetupPhase::Resources,
        forall|i: int|
            0 <= i < events.len() ==> (#[trigger] events[i] matches SetupEventView::Resources(
                connectors,
            ) ==> connectors.len() <= usize::MAX),
        setup.after_events(events).wants() is SetCrtc,
    ensures
        setup.shows_first(events, t, setup.after_events(events).wants()),
{
    let n = events.len() as int;
    assert(events.take(n) =~= events);
    let t = trace_so_far(setup, events, n);
    assert(setup.attached_second(events, n, t));
    t
}

#[verifier::spinoff_prover]
proof fn complete_trace(
    setup: SetupView,
    events: Seq<SetupEventView>,
    route: Route,
    bufs: [DbBuf; 2],
) -> (t: SetupTrace)
    requires
        setup.phase == SetupPhase::Resources,
        forall|i: int|
            0 <= i < events.len() ==> (#[trigger] events[i] matches SetupEventView::Resources(
                connectors,
            ) ==> connectors.len() <= usize::MAX),
        setup.after_events(events).phase == (SetupPhase::Ready { route, bufs }),
    ensures
        setup.completes(events, t, route, bufs),
{
    let n = events.len() as int;
    assert(events.take(n) =~= events);
    let t = trace_so_far(setup, events, n);
    assert(setup.attached_second(events, n, t));
    t
}

/// The buffer on the screen is not the back buffer. Where a setup is complete, what it showed is
/// the framebuffer of the first of its two buffers, on the CRTC that it is complete with; and so,
/// with a presenter whose back buffer is the second, that of the other buffer than the back
/// buffer. The two framebuffers are those that were attached to the two buffers, and the rows of
/// the buffers are as long as they were created.
pub proof fn a_complete_setup_shows_the_front_buffer(
    setup: SetupView,
    events: Seq<SetupEventView>,
    route: Route,
    bufs: [DbBuf; 2],
    back: int,
)
    requires
        setup.phase == SetupPhase::Resources,
        forall|i: int|
            0 <= i < events.len() ==> (#[trigger] events[i] matches SetupEventView::Resources(
                connectors,
            ) ==> connectors.len() <= usize::MAX),
        setup.after_events(events).phase == (SetupPhase::Ready { route, bufs }),
        back == 1,
    ensures
        setup.was_shown(events, route.crtc, bufs@[1 - back].fb),
        exists|t: SetupTrace| setup.completes(events, t, route, bufs),
{
    let n = events.len() as int;
    assert(events.take(n) =~= events);
    let t = complete_trace(setup, events, route, bufs);
    let i = shown_so_far(setup, events, n, route, bufs);
    assert(setup.was_shown(events, route.crtc, bufs@[0].fb));
}

proof fn shown_so_far(
    setup: SetupView,
    events: Seq<SetupEventView>,
    n: int,
    route: Route,
    bufs: [DbBuf; 2],
) -> (i: int)
    requires
        setup.phase == SetupPhase::Resources,
        0 <= n <= events.len(),
        setup.at(events, n).phase == (SetupPhase::Ready { route, bufs }),
    ensures
        setup.shown_at(events, i, route.crtc, bufs@[0].fb),
    decreases n,
{
    assert(setup.at(events, 0) == setup);
    let p = n - 1;
    assert(events.take(n).drop_last() =~= events.take(p));
    assert(events.take(n).last() == events[p]);
    if setup.at(events, p).phase == (SetupPhase::Ready { route, bufs }) {
        shown_so_far(setup, events, p, route, bufs)
    } else {
        p
    }
}

/// Where a setup fails. Each step that fails, or finds that something is missing, has its own
/// error: no list of connectors; no connector that is connected and has a mode, once the last of
/// them is passed; no encoder; no answer of the encoder; no CRTC; and each of the operations on
/// the two buffers and on the CRTC under its own name.
pub proof fn a_setup_fails_where_it_is(
    setup: SetupView,
    info: ConnectorSetupView,
    index: usize,
    connectors: Seq<u32>,
)
    requires
        index < setup.connectors.len(),
        setup.connectors.len() <= usize::MAX,
    ensures
        ({
            let failed = setup.stepped(SetupEventView::Failed).wants();
            let device = |site: Site| SetupAction::Fail { error: SetupError::Device { site } };
            &&& setup.wants() is ListResources ==> failed == (SetupAction::Fail {
                error: SetupError::Resources,
            })
            &&& setup.wants() is GetEncoder ==> failed == (SetupAction::Fail {
                error: SetupError::Encoder,
            })
            &&& setup.wants() is GetEncoder ==> setup.stepped(SetupEventView::Encoder(None)).wants()
                == (SetupAction::Fail { error: SetupError::NoCrtc })
            &&& setup.wants() is ClearBuffer ==> failed == device(Site::MapBuffer)
            &&& setup.wants() is AddFramebuffer ==> failed == device(Site::AddFramebuffer)
            &&& setup.wants() is SetCrtc ==> failed == device(Site::SetCrtc)
            &&& setup.wants() is CreateDumbBuffer ==> failed == device(
                if setup.stepped(SetupEventView::Created { pitch: 0 }).wants() == (
                SetupAction::ClearBuffer { buffer: 0 }) {
                    Site::CreateFirstBuffer
                } else {
                    Site::CreateSecondBuffer
                },
            )
        }),
        setup.wants() is ListResources ==> setup.stepped(
            SetupEventView::Resources(Seq::empty()),
        ).wants() == (SetupAction::Fail { error: SetupError::NoConnector }),
        setup.wants() is ListResources && 0 < connectors.len() <= usize::MAX ==> setup.stepped(
            SetupEventView::Resources(connectors),
        ).wants() == (SetupAction::ProbeConnector { connector_id: connectors[0], force: true }),
        ({
            let probing = SetupView { phase: SetupPhase::Probe { index }, ..setup };
            let passed = if index + 1 < setup.connectors.len() {
                SetupAction::ProbeConnector {
                    connector_id: setup.connectors[index + 1],
                    force: true,
                }
            } else {
                SetupAction::Fail { error: SetupError::NoConnector }
            };
            let found = probing.stepped(SetupEventView::Connector(info)).wants();
            &&& probing.wants() == (SetupAction::ProbeConnector {
                connector_id: setup.connectors[index as int],
                force: true,
            })
            &&& probing.stepped(SetupEventView::Failed).wants() == passed
            &&& !info.connected || info.modes <= 0 ==> found == passed
            &&& info.connected && info.modes > 0 && info.encoders.len() == 0 ==> found == (
            SetupAction::Fail { error: SetupError::NoEncoder })
            &&& info.connected && info.modes > 0 && info.encoders.len() > 0 ==> found == (
            SetupAction::GetEncoder { encoder: info.encoders[0] })
        }),
{
}

/// How a setup goes on behind its connector while everything succeeds: the encoder brings it to
/// create a buffer of the size of the image; a buffer that was created is cleared, one that was
/// cleared becomes a framebuffer; the first framebuffer is followed by creating the second
/// buffer, the second by showing the first; and that completes the setup. What is not an answer
/// changes nothing, and neither does anything at the end.
pub proof fn a_setup_goes_on(setup: SetupView, crtc: u32, pitch: u32, fb: u32)
    ensures
        ({
            let create = SetupAction::CreateDumbBuffer {
                width: setup.width,
                height: setup.height,
                format: 0x3432_5258,
                bpp: 32,
            };
            let created = setup.stepped(SetupEventView::Created { pitch });
            let cleared = setup.stepped(SetupEventView::Cleared);
            let attached = setup.stepped(SetupEventView::Attached { fb });
            &&& setup.phase == SetupPhase::Resources ==> setup.wants()
                == SetupAction::ListResources
            &&& setup.wants() is GetEncoder ==> setup.stepped(
                SetupEventView::Encoder(Some(crtc)),
            ).wants() == create
            &&& setup.wants() is CreateDumbBuffer ==> setup.wants() == create
                && created.wants() is ClearBuffer
            &&& setup.wants() matches SetupAction::ClearBuffer { buffer } ==> cleared.wants() == (
            SetupAction::AddFramebuffer { buffer, depth: 24, bpp: 32 })
            &&& setup.wants() == (SetupAction::AddFramebuffer { buffer: 0, depth: 24, bpp: 32 })
                ==> attached.wants() == create && attached.stepped(
                SetupEventView::Created { pitch },
            ).wants() == (SetupAction::ClearBuffer { buffer: 1 })
            &&& setup.wants() == (SetupAction::AddFramebuffer { buffer: 1, depth: 24, bpp: 32 })
                ==> attached.wants() is SetCrtc
            &&& setup.wants() is SetCrtc ==> setup.stepped(SetupEventView::Shown).wants()
                == SetupAction::Done
            &&& !(setup.wants() is CreateDumbBuffer) ==> created == setup
            &&& !(setup.wants() is ClearBuffer) ==> cleared == setup
            &&& !(setup.wants() is AddFramebuffer) ==> attached == setup
            &&& !(setup.wants() is SetCrtc) ==> setup.stepped(SetupEventView::Shown) == setup
        }),
        forall|event: SetupEventView|
            setup.wants() is Done || setup.wants() is Fail ==> #[trigger] setup.stepped(event)
                == setup,
        forall|event: SetupEventView|
            (#[trigger] setup.stepped(event)).width == setup.width && setup.stepped(event).height
                == setup.height,
{
}

/// The content of an event is what the event says, and that of a connector what the connector
/// says of itself.
pub proof fn events_say_what_they_are(event: SetupEvent, info: ConnectorSetup)
    ensures
        info@.connected == info.connected,
        info@.modes == info.modes,
        info@.encoders == info.encoders@,
        event is Failed <==> event@ is Failed,
        event is Cleared <==> event@ is Cleared,
        event is Shown <==> event@ is Shown,
        event matches SetupEvent::Resources(connectors) ==> event@
            == SetupEventView::Resources(connectors@),
        event matches SetupEvent::Connector(said) ==> event@ == SetupEventView::Connector(said@),
        event matches SetupEvent::Encoder(crtc) ==> event@ == SetupEventView::Encoder(crtc),
        event matches SetupEvent::Created { pitch } ==> event@ == (SetupEventView::Created {
            pitch,
        }),
        event matches SetupEvent::Attached { fb } ==> event@ == (SetupEventView::Attached { fb }),
{
}

} // verus!
