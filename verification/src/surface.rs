//! Presenting through a surface: how it is configured, and how a frame is acquired from it.

use vstd::prelude::*;

use crate::select;
use crate::select::Selectable;

verus! {

/// How many frames a surface may queue.
pub const FRAME_LATENCY: u32 = 2;

/// The formats of a surface that are told apart.
#[derive(Clone, Copy, Debug, PartialEq, Eq, Structural)]
pub enum SurfaceFormat {
    Bgra8UnormSrgb,
    Rgba8UnormSrgb,
    Other,
}

/// The present modes of a surface that are told apart.
#[derive(Clone, Copy, Debug, PartialEq, Eq, Structural)]
pub enum PresentMode {
    Fifo,
    Other,
}

/// The alpha modes of a surface that are told apart.
#[derive(Clone, Copy, Debug, PartialEq, Eq, Structural)]
pub enum AlphaMode {
    Opaque,
    Other,
}

/// What a surface is capable of.
#[derive(Debug)]
pub struct SurfaceCaps {
    pub formats: Vec<SurfaceFormat>,
    pub present_modes: Vec<PresentMode>,
    pub alpha_modes: Vec<AlphaMode>,
}

impl SurfaceCaps {
    /// The surface offers something of each kind.
    pub open spec fn usable(self) -> bool {
        &&& self.formats@.len() > 0
        &&& self.present_modes@.len() > 0
        &&& self.alpha_modes@.len() > 0
    }
}

/// The 8-bit sRGB formats are wanted.
impl Selectable for SurfaceFormat {
    open spec fn wanted(&self) -> bool {
        *self == SurfaceFormat::Bgra8UnormSrgb || *self == SurfaceFormat::Rgba8UnormSrgb
    }

    fn is_wanted(&self) -> bool {
        *self == SurfaceFormat::Bgra8UnormSrgb || *self == SurfaceFormat::Rgba8UnormSrgb
    }
}

/// The mode that waits for the vertical blank is wanted.
impl Selectable for PresentMode {
    open spec fn wanted(&self) -> bool {
        *self == PresentMode::Fifo
    }

    fn is_wanted(&self) -> bool {
        *self == PresentMode::Fifo
    }
}

/// The opaque mode is wanted.
impl Selectable for AlphaMode {
    open spec fn wanted(&self) -> bool {
        *self == AlphaMode::Opaque
    }

    fn is_wanted(&self) -> bool {
        *self == AlphaMode::Opaque
    }
}

/// What a texture is used for: nothing but what is named here.
#[derive(Clone, Copy, Debug, PartialEq, Eq, Structural)]
pub struct TextureUsages {
    /// It is rendered to.
    pub render_attachment: bool,
    /// It is copied from.
    pub copy_src: bool,
}

/// How a surface is configured. The formats and the modes are given by their positions in what
/// the surface is capable of.
#[derive(Debug, PartialEq, Eq)]
pub struct SurfacePresenter {
    pub usage: TextureUsages,
    pub format: usize,
    pub present_mode: usize,
    pub alpha_mode: usize,
    pub width: u32,
    pub height: u32,
    /// The formats that views of a frame may have besides its own.
    pub view_formats: Vec<usize>,
    pub desired_maximum_frame_latency: u32,
}

/// How far acquiring a frame has come.
#[derive(Clone, Copy, Debug, PartialEq, Eq, Structural)]
pub enum AcquirePhase {
    /// A frame is to be acquired.
    First,
    /// That failed; the surface is to be configured anew.
    Reconfigure,
    /// A frame is to be acquired from the surface that was configured anew.
    Second,
    /// The frame is there.
    Acquired,
    /// The second attempt failed too.
    Failed,
}

/// What is done next to acquire a frame.
#[derive(Clone, Copy, Debug, PartialEq, Eq, Structural)]
pub enum AcquireAction {
    Acquire,
    Configure,
    Done,
    Fail,
}

/// The words in which a frame that cannot be acquired is reported.
pub const ACQUIRE_FAILED: &'static str = "surface acquire failed after reconfigure";

impl AcquirePhase {
    /// What is done next.
    pub open spec fn wants(self) -> AcquireAction {
        match self {
            AcquirePhase::First => AcquireAction::Acquire,
            AcquirePhase::Reconfigure => AcquireAction::Configure,
            AcquirePhase::Second => AcquireAction::Acquire,
            AcquirePhase::Acquired => AcquireAction::Done,
            AcquirePhase::Failed => AcquireAction::Fail,
        }
    }

    /// The phase once the action succeeded or failed. Configuring a surface does not fail.
    pub open spec fn stepped(self, ok: bool) -> AcquirePhase {
        match self {
            AcquirePhase::First => if ok {
                AcquirePhase::Acquired
            } else {
                AcquirePhase::Reconfigure
            },
            AcquirePhase::Reconfigure => AcquirePhase::Second,
            AcquirePhase::Second => if ok {
                AcquirePhase::Acquired
            } else {
                AcquirePhase::Failed
            },
            _ => self,
        }
    }

    /// What to do next.
    pub fn action(self) -> (action: AcquireAction)
        ensures
            action == self.wants(),
    {
        match self {
            AcquirePhase::First => AcquireAction::Acquire,
            AcquirePhase::Reconfigure => AcquireAction::Configure,
            AcquirePhase::Second => AcquireAction::Acquire,
            AcquirePhase::Acquired => AcquireAction::Done,
            AcquirePhase::Failed => AcquireAction::Fail,
        }
    }

    /// Takes note of whether the action succeeded.
    pub fn step(self, ok: bool) -> (next: AcquirePhase)
        ensures
            next == self.stepped(ok),
    {
        match self {
            AcquirePhase::First => if ok {
                AcquirePhase::Acquired
            } else {
                AcquirePhase::Reconfigure
            },
            AcquirePhase::Reconfigure => AcquirePhase::Second,
            AcquirePhase::Second => if ok {
                AcquirePhase::Acquired
            } else {
                AcquirePhase::Failed
            },
            other => other,
        }
    }
}

impl SurfacePresenter {
    /// Configures a surface of this size: the first sRGB format, the first mode that waits for
    /// the vertical blank and the first opaque mode, or the first of all where there is none.
    pub fn new(caps: &SurfaceCaps, width: u32, height: u32) -> (presenter: Self)
        requires
            caps.usable(),
        ensures
            presenter.usage == (TextureUsages { render_attachment: true, copy_src: false }),
            presenter.format == select::chosen(select::marks(caps.formats@)),
            presenter.format < caps.formats@.len(),
            presenter.present_mode == select::chosen(select::marks(caps.present_modes@)),
            presenter.present_mode < caps.present_modes@.len(),
            presenter.alpha_mode == select::chosen(select::marks(caps.alpha_modes@)),
            presenter.alpha_mode < caps.alpha_modes@.len(),
            presenter.width == width,
            presenter.height == height,
            presenter.view_formats@ == Seq::<usize>::empty(),
            presenter.desired_maximum_frame_latency == FRAME_LATENCY,
            presenter.desired_maximum_frame_latency == 2,
            caps.formats@.contains(SurfaceFormat::Bgra8UnormSrgb) || caps.formats@.contains(
                SurfaceFormat::Rgba8UnormSrgb,
            ) ==> caps.formats@[presenter.format as int] == SurfaceFormat::Bgra8UnormSrgb
                || caps.formats@[presenter.format as int] == SurfaceFormat::Rgba8UnormSrgb,
            caps.present_modes@.contains(PresentMode::Fifo)
                ==> caps.present_modes@[presenter.present_mode as int] == PresentMode::Fifo,
            caps.alpha_modes@.contains(AlphaMode::Opaque)
                ==> caps.alpha_modes@[presenter.alpha_mode as int] == AlphaMode::Opaque,
    {
        proof {
            the_first_srgb_format_is_used(caps.formats@);
            the_first_fifo_mode_is_used(caps.present_modes@);
            the_first_opaque_mode_is_used(caps.alpha_modes@);
        }
        SurfacePresenter {
            usage: TextureUsages { render_attachment: true, copy_src: false },
            format: select::choose_first(caps.formats.as_slice()),
            present_mode: select::choose_first(caps.present_modes.as_slice()),
            alpha_mode: select::choose_first(caps.alpha_modes.as_slice()),
            width,
            height,
            view_formats: Vec::new(),
            desired_maximum_frame_latency: FRAME_LATENCY,
        }
    }

    /// The position of the format that frames are rendered in.
    pub fn preferred_format(&self) -> (format: usize)
        ensures
            format == self.format,
    {
        self.format
    }

    /// Starts to acquire a frame.
    pub fn begin_frame(&self) -> (phase: AcquirePhase)
        ensures
            phase == AcquirePhase::First,
    {
        AcquirePhase::First
    }
}

/// A frame is acquired if one of two attempts succeeds, the second of them with the surface
/// configured anew; and a first attempt that succeeds leaves the surface as it is.
pub proof fn acquiring_is_tried_twice(first: bool, second: bool)
    ensures
        first ==> AcquirePhase::First.stepped(first) == AcquirePhase::Acquired,
        !first ==> AcquirePhase::First.stepped(first).wants() == AcquireAction::Configure,
        !first ==> AcquirePhase::First.stepped(first).stepped(true).stepped(second) == (
        if second {
            AcquirePhase::Acquired
        } else {
            AcquirePhase::Failed
        }),
{
}

/// A surface is rendered to in the first of its formats that is `Bgra8UnormSrgb` or
/// `Rgba8UnormSrgb`, and in its first format where it offers neither.
pub proof fn the_first_srgb_format_is_used(formats: Seq<SurfaceFormat>)
    requires
        formats.len() > 0,
    ensures
        ({
            let used = select::chosen(select::marks(formats));
            let offered = formats.contains(SurfaceFormat::Bgra8UnormSrgb) || formats.contains(
                SurfaceFormat::Rgba8UnormSrgb,
            );
            &&& 0 <= used < formats.len()
            &&& offered ==> formats[used] == SurfaceFormat::Bgra8UnormSrgb || formats[used]
                == SurfaceFormat::Rgba8UnormSrgb
            &&& forall|i: int|
                0 <= i < used ==> #[trigger] formats[i] != SurfaceFormat::Bgra8UnormSrgb
                    && formats[i] != SurfaceFormat::Rgba8UnormSrgb
            &&& !offered ==> used == 0
        }),
{
    let marks = select::marks(formats);
    select::chosen_is_first_marked(marks);
    assert forall|i: int| 0 <= i < formats.len() implies #[trigger] marks[i] == (formats[i]
        == SurfaceFormat::Bgra8UnormSrgb || formats[i] == SurfaceFormat::Rgba8UnormSrgb) by {}
    assert forall|i: int| 0 <= i < select::chosen(marks) implies #[trigger] formats[i]
        != SurfaceFormat::Bgra8UnormSrgb && formats[i] != SurfaceFormat::Rgba8UnormSrgb by {
        assert(!marks[i]);
    }
    if marks.contains(true) {
        let i = choose|i: int| 0 <= i < marks.len() && marks[i] == true;
        assert(formats[i] == SurfaceFormat::Bgra8UnormSrgb || formats[i]
            == SurfaceFormat::Rgba8UnormSrgb);
    }
    if formats.contains(SurfaceFormat::Bgra8UnormSrgb) {
        let i = choose|i: int|
            0 <= i < formats.len() && formats[i] == SurfaceFormat::Bgra8UnormSrgb;
        assert(marks[i]);
    }
    if formats.contains(SurfaceFormat::Rgba8UnormSrgb) {
        let i = choose|i: int|
            0 <= i < formats.len() && formats[i] == SurfaceFormat::Rgba8UnormSrgb;
        assert(marks[i]);
    }
}

/// A surface presents in the first of its modes that waits for the vertical blank, and in its
/// first mode where none does.
pub proof fn the_first_fifo_mode_is_used(modes: Seq<PresentMode>)
    requires
        modes.len() > 0,
    ensures
        ({
            let used = select::chosen(select::marks(modes));
            &&& 0 <= used < modes.len()
            &&& modes.contains(PresentMode::Fifo) ==> modes[used] == PresentMode::Fifo
            &&& forall|i: int| 0 <= i < used ==> #[trigger] modes[i] != PresentMode::Fifo
            &&& !modes.contains(PresentMode::Fifo) ==> used == 0
        }),
{
    let marks = select::marks(modes);
    select::chosen_is_first_marked(marks);
    assert forall|i: int| 0 <= i < modes.len() implies #[trigger] marks[i] == (modes[i]
        == PresentMode::Fifo) by {}
    assert forall|i: int| 0 <= i < select::chosen(marks) implies #[trigger] modes[i]
        != PresentMode::Fifo by {
        assert(!marks[i]);
    }
    if modes.contains(PresentMode::Fifo) {
        let i = choose|i: int| 0 <= i < modes.len() && modes[i] == PresentMode::Fifo;
        assert(marks[i]);
    }
}

/// A surface is composed in the first of its modes that is opaque, and in its first mode where
/// none is.
pub proof fn the_first_opaque_mode_is_used(modes: Seq<AlphaMode>)
    requires
        modes.len() > 0,
    ensures
        ({
            let used = select::chosen(select::marks(modes));
            &&& 0 <= used < modes.len()
            &&& modes.contains(AlphaMode::Opaque) ==> modes[used] == AlphaMode::Opaque
            &&& forall|i: int| 0 <= i < used ==> #[trigger] modes[i] != AlphaMode::Opaque
            &&& !modes.contains(AlphaMode::Opaque) ==> used == 0
        }),
{
    let marks = select::marks(modes);
    select::chosen_is_first_marked(marks);
    assert forall|i: int| 0 <= i < modes.len() implies #[trigger] marks[i] == (modes[i]
        == AlphaMode::Opaque) by {}
    assert forall|i: int| 0 <= i < select::chosen(marks) implies #[trigger] modes[i]
        != AlphaMode::Opaque by {
        assert(!marks[i]);
    }
    if modes.contains(AlphaMode::Opaque) {
        let i = choose|i: int| 0 <= i < modes.len() && modes[i] == AlphaMode::Opaque;
        assert(marks[i]);
    }
}

/// Acquiring a frame, seen from outside: it is tried at once; where that fails the surface is
/// configured anew, whatever comes of that, and it is tried once more; and the outcome of the
/// attempt that settles it is final.
pub proof fn acquiring_goes_attempt_configure_attempt(first: bool, configured: bool, second: bool)
    ensures
        ({
            let start = AcquirePhase::First;
            let retry = start.stepped(false).stepped(configured);
            &&& start.wants() == AcquireAction::Acquire
            &&& start.stepped(first).wants() == (if first {
                AcquireAction::Done
            } else {
                AcquireAction::Configure
            })
            &&& retry.wants() == AcquireAction::Acquire
            &&& retry.stepped(second).wants() == (if second {
                AcquireAction::Done
            } else {
                AcquireAction::Fail
            })
        }),
        forall|phase: AcquirePhase, ok: bool|
            phase.wants() == AcquireAction::Done || phase.wants() == AcquireAction::Fail
                ==> #[trigger] phase.stepped(ok) == phase,
{
}

/// A frame that cannot be acquired is reported in these words.
pub proof fn a_frame_that_is_not_acquired_is_reported()
    ensures
        ACQUIRE_FAILED@ == "surface acquire failed after reconfigure"@,
{
}

} // verus!
