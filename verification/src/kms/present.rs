//! Presenting frames with two dumb buffers: one is shown while the other is written, and a
//! page flip at the vertical blank swaps them.

use vstd::prelude::*;

use crate::errors::Site;
use crate::kms::ppm;
use crate::kms::scanout::{has_room, room, ScanoutLayout, TargetFormat};
use crate::surface::TextureUsages;

verus! {

/// How long to pause between two looks for the event of a page flip, in milliseconds.
pub const FLIP_POLL_MILLIS: u64 = 1;

/// A dumb buffer: the length of its rows in bytes, and the framebuffer made of it.
#[derive(Clone, Copy, Debug, PartialEq, Eq, Structural)]
pub struct DbBuf {
    pub pitch: u32,
    pub fb: u32,
}

/// Presents frames on one CRTC.
#[derive(Debug)]
pub struct KmsCpuPresenter {
    crtc: u32,
    bufs: [DbBuf; 2],
    width: u32,
    height: u32,
    /// The buffer that is written next.
    back: usize,
    dumb_pitch: u32,
    copy_bpr: u32,
    /// The file that the first frame is saved to, where there is one.
    dump_path: Option<String>,
    dumped: bool,
}

/// The content of a `KmsCpuPresenter`.
pub struct PresenterView {
    pub crtc: u32,
    pub bufs: Seq<DbBuf>,
    /// The rows on either side of the copy, and the size of the image.
    pub layout: ScanoutLayout,
    /// The buffer that is written next.
    pub back: int,
    /// The file that the first frame is saved to, where there is one.
    pub dump_path: Option<Seq<char>>,
    pub dumped: bool,
}

/// The content of an optional text.
pub open spec fn optional_path(path: Option<String>) -> Option<Seq<char>> {
    match path {
        Some(path) => Some(path@),
        None => None,
    }
}

impl View for KmsCpuPresenter {
    type V = PresenterView;

    closed spec fn view(&self) -> PresenterView {
        PresenterView {
            crtc: self.crtc,
            bufs: self.bufs@,
            layout: ScanoutLayout {
                width: self.width,
                height: self.height,
                dumb_pitch: self.dumb_pitch,
                copy_bpr: self.copy_bpr,
            },
            back: self.back as int,
            dump_path: optional_path(self.dump_path),
            dumped: self.dumped,
        }
    }
}

impl PresenterView {
    /// There are two buffers, the layout is that of the first, and the back buffer is one of
    /// the two.
    pub open spec fn wf(self) -> bool {
        &&& self.bufs.len() == 2
        &&& self.layout.wf()
        &&& self.layout.dumb_pitch == self.bufs[0].pitch
        &&& 0 <= self.back < 2
    }

    /// How the rendered texture is copied into the readback buffer: all of it, from the start.
    pub open spec fn copy(self) -> CopyLayout {
        CopyLayout {
            offset: 0,
            bytes_per_row: self.layout.copy_bpr,
            rows_per_image: self.layout.height,
            width: self.layout.width,
            height: self.layout.height,
        }
    }
}

/// The texture that frames are rendered to.
#[derive(Clone, Copy, Debug, PartialEq, Eq, Structural)]
pub struct TargetTexture {
    pub width: u32,
    pub height: u32,
    pub format: TargetFormat,
    pub usage: TextureUsages,
}

/// How the rendered texture is copied into the readback buffer.
#[derive(Clone, Copy, Debug, PartialEq, Eq, Structural)]
pub struct CopyLayout {
    pub offset: u64,
    pub bytes_per_row: u32,
    pub rows_per_image: u32,
    pub width: u32,
    pub height: u32,
}

/// How far the end of a frame has come.
#[derive(Clone, Copy, Debug, PartialEq, Eq, Structural)]
pub enum EndPhase {
    /// The texture is to be copied into the readback buffer, and the work submitted.
    Submit,
    /// The readback buffer is to be copied into the back buffer.
    Blit,
    /// The back buffer is to be saved.
    Dump,
    /// The flip to the back buffer is to be requested.
    Flip,
    /// The flip was requested; its event is to be looked for.
    Receive,
    /// The event was not there yet.
    Pause,
    /// The back buffer is shown, and the other one has become the back buffer.
    Done,
    /// A device operation failed.
    Failed { site: Site },
}

/// What is done next to end a frame.
#[derive(Clone, Copy, Debug, PartialEq, Eq, Structural)]
pub enum EndAction {
    /// Add this copy to the commands of the frame, and submit them once.
    CopyAndSubmit { copy: CopyLayout },
    /// Copy the readback buffer into this dumb buffer.
    Blit { buffer: usize },
    /// Save this dumb buffer.
    Dump { buffer: usize },
    /// Request the flip of the CRTC to this dumb buffer's framebuffer at the next vertical
    /// blank, and an event once it took place where one is asked for.
    PageFlip { buffer: usize, crtc: u32, fb: u32, event: bool },
    ReceiveEvents,
    Pause { millis: u64 },
    Done,
    Fail { site: Site },
}

/// An event of the card.
#[derive(Clone, Copy, Debug, PartialEq, Eq, Structural)]
pub enum DrmEvent {
    /// The flip on this CRTC took place.
    PageFlip { crtc: u32 },
    Other,
}

/// What came of an action.
#[derive(Debug)]
pub enum EndEvent {
    Succeeded,
    Failed,
    Received(Vec<DrmEvent>),
}

/// The content of an `EndEvent`.
pub enum EndEventView {
    Succeeded,
    Failed,
    Received(Seq<DrmEvent>),
}

impl View for EndEvent {
    type V = EndEventView;

    open spec fn view(&self) -> EndEventView {
        match self {
            EndEvent::Succeeded => EndEventView::Succeeded,
            EndEvent::Failed => EndEventView::Failed,
            EndEvent::Received(events) => EndEventView::Received(events@),
        }
    }
}

/// The flip on `crtc` is among the events.
pub open spec fn holds_flip(events: Seq<DrmEvent>, crtc: u32) -> bool {
    events.contains(DrmEvent::PageFlip { crtc })
}

/// Whether the flip on `crtc` is among the events.
pub fn flip_seen(events: &[DrmEvent], crtc: u32) -> (seen: bool)
    ensures
        seen == holds_flip(events@, crtc),
{
    let mut i: usize = 0;
    while i < events.len()
        invariant
            i <= events@.len(),
            forall|k: int| 0 <= k < i ==> events@[k] != (DrmEvent::PageFlip { crtc }),
        decreases events@.len() - i,
    {
        if let DrmEvent::PageFlip { crtc: flipped } = events[i] {
            if flipped == crtc {
                assert(events@[i as int] == DrmEvent::PageFlip { crtc });
                return true;
            }
        }
        i += 1;
    }
    false
}

/// A frame that is being ended: how far that has come, and the presenter that ends it.
pub struct Frame {
    pub phase: EndPhase,
    pub presenter: PresenterView,
}

impl Frame {
    /// What is done next.
    pub open spec fn wants(self) -> EndAction {
        let back = self.presenter.back;
        match self.phase {
            EndPhase::Submit => EndAction::CopyAndSubmit { copy: self.presenter.copy() },
            EndPhase::Blit => EndAction::Blit { buffer: back as usize },
            EndPhase::Dump => EndAction::Dump { buffer: back as usize },
            EndPhase::Flip => EndAction::PageFlip {
                buffer: back as usize,
                crtc: self.presenter.crtc,
                fb: self.presenter.bufs[back].fb,
                event: true,
            },
            EndPhase::Receive => EndAction::ReceiveEvents,
            EndPhase::Pause => EndAction::Pause { millis: FLIP_POLL_MILLIS },
            EndPhase::Done => EndAction::Done,
            EndPhase::Failed { site } => EndAction::Fail { site },
        }
    }

    /// The frame in another phase.
    pub open spec fn in_phase(self, phase: EndPhase) -> Frame {
        Frame { phase, ..self }
    }

    /// The frame once an operation failed.
    pub open spec fn failed(self, site: Site) -> Frame {
        self.in_phase(EndPhase::Failed { site })
    }

    /// The frame once saving it was tried, whatever came of that.
    pub open spec fn saved(self) -> Frame {
        Frame {
            phase: EndPhase::Flip,
            presenter: PresenterView { dumped: true, ..self.presenter },
        }
    }

    /// The frame once it is shown: the buffers have swapped.
    pub open spec fn shown(self) -> Frame {
        Frame {
            phase: EndPhase::Done,
            presenter: PresenterView { back: 1 - self.presenter.back, ..self.presenter },
        }
    }

    /// The frame is to be saved.
    pub open spec fn to_be_saved(self) -> bool {
        self.presenter.dump_path is Some && !self.presenter.dumped
    }

    /// The frame once an action came to this. What does not answer the action changes nothing.
    pub open spec fn stepped(self, event: EndEventView) -> Frame {
        match (self.phase, event) {
            (EndPhase::Submit, EndEventView::Succeeded) => self.in_phase(EndPhase::Blit),
            (EndPhase::Blit, EndEventView::Succeeded) => if self.to_be_saved() {
                self.in_phase(EndPhase::Dump)
            } else {
                self.in_phase(EndPhase::Flip)
            },
            (EndPhase::Blit, EndEventView::Failed) => self.failed(Site::MapBuffer),
            (EndPhase::Dump, EndEventView::Succeeded) => self.saved(),
            (EndPhase::Dump, EndEventView::Failed) => self.saved(),
            (EndPhase::Flip, EndEventView::Succeeded) => self.in_phase(EndPhase::Receive),
            (EndPhase::Flip, EndEventView::Failed) => self.failed(Site::PageFlip),
            (EndPhase::Receive, EndEventView::Received(events)) => if holds_flip(
                events,
                self.presenter.crtc,
            ) {
                self.shown()
            } else {
                self.in_phase(EndPhase::Pause)
            },
            (EndPhase::Receive, EndEventView::Failed) => self.failed(Site::ReceiveEvents),
            (EndPhase::Pause, EndEventView::Succeeded) => self.in_phase(EndPhase::Receive),
            _ => self,
        }
    }

    /// The frame once its actions came to all this.
    pub open spec fn after(self, events: Seq<EndEventView>) -> Frame
        decreases events.len(),
    {
        if events.len() == 0 {
            self
        } else {
            self.after(events.drop_last()).stepped(events.last())
        }
    }
}

impl KmsCpuPresenter {
    /// A presenter whose first buffer is shown, so that the second is the back buffer.
    pub(crate) fn showing_first(
        crtc: u32,
        bufs: [DbBuf; 2],
        layout: ScanoutLayout,
        dump_path: Option<String>,
    ) -> (presenter: Self)
        ensures
            presenter@ == (PresenterView {
                crtc,
                bufs: bufs@,
                layout,
                back: 1,
                dump_path: optional_path(dump_path),
                dumped: false,
            }),
    {
        KmsCpuPresenter {
            crtc,
            bufs,
            width: layout.width,
            height: layout.height,
            back: 1,
            dumb_pitch: layout.dumb_pitch,
            copy_bpr: layout.copy_bpr,
            dump_path,
            dumped: false,
        }
    }

    /// A frame that is being ended by this presenter.
    pub open spec fn frame(self, phase: EndPhase) -> Frame {
        Frame { phase, presenter: self@ }
    }

    /// The format of the texture that frames are rendered to.
    pub fn preferred_format(&self) -> (format: TargetFormat)
        ensures
            format == TargetFormat::Rgba8Unorm,
    {
        TargetFormat::Rgba8Unorm
    }

    /// The texture that frames are rendered to and copied from.
    pub fn target_texture(&self) -> (target: TargetTexture)
        ensures
            target == (TargetTexture {
                width: self@.layout.width,
                height: self@.layout.height,
                format: TargetFormat::Rgba8Unorm,
                usage: TextureUsages { render_attachment: true, copy_src: true },
            }),
    {
        TargetTexture {
            width: self.width,
            height: self.height,
            format: self.preferred_format(),
            usage: TextureUsages { render_attachment: true, copy_src: true },
        }
    }

    /// The rows on either side of the copy, and the size of the image.
    pub fn scanout_layout(&self) -> (layout: ScanoutLayout)
        ensures
            layout == self@.layout,
    {
        ScanoutLayout {
            width: self.width,
            height: self.height,
            dumb_pitch: self.dumb_pitch,
            copy_bpr: self.copy_bpr,
        }
    }

    /// The file that the first frame is saved to, where there is one.
    pub fn dump_path(&self) -> (path: Option<&str>)
        ensures
            match path {
                Some(path) => self@.dump_path == Some(path@),
                None => self@.dump_path is None,
            },
    {
        match &self.dump_path {
            Some(path) => Some(path.as_str()),
            None => None,
        }
    }

    /// How to copy the rendered texture into the readback buffer.
    pub fn copy_to_readback(&self) -> (copy: CopyLayout)
        ensures
            copy == self@.copy(),
            copy.offset == 0,
            copy.bytes_per_row == self@.layout.copy_bpr,
            copy.rows_per_image == self@.layout.height,
            copy.width == self@.layout.width,
            copy.height == self@.layout.height,
    {
        CopyLayout {
            offset: 0,
            bytes_per_row: self.copy_bpr,
            rows_per_image: self.height,
            width: self.width,
            height: self.height,
        }
    }

    /// Copies the rendered image from the mapped readback buffer into the mapped back buffer,
    /// and converts it to XRGB8888 on the way.
    pub fn blit_readback_to_dumb(&self, data: &[u8], map: &mut [u8])
        requires
            self@.wf(),
            self@.layout.readback_fits(data@.len() as int),
            self@.layout.dumb_fits(old(map)@.len() as int),
        ensures
            final(map)@ == self@.layout.scanned_out(
                TargetFormat::Rgba8Unorm,
                data@,
                old(map)@,
            ),
    {
        self.scanout_layout().blit(self.preferred_format(), data, map);
    }

    /// Whether a mapped buffer of this size holds the image that is to be saved.
    pub fn dump_fits(&self, len: usize) -> (fits: bool)
        requires
            self@.wf(),
        ensures
            fits == has_room(
                len as int,
                self@.layout.height as int,
                self@.layout.dumb_pitch as int,
                4 * self@.layout.width,
            ),
    {
        room(len, self.height, self.dumb_pitch, self.width * 4)
    }

    /// The header of the image that a frame is saved as.
    pub fn dump_header(&self) -> (header: Vec<u8>)
        ensures
            header@ == ppm::ppm_header_bytes(
                self@.layout.width as nat,
                self@.layout.height as nat,
            ),
    {
        ppm::ppm_header(self.width, self.height)
    }

    /// The body of the image that a frame is saved as, from the mapped back buffer.
    pub fn dump_body(&self, map: &[u8]) -> (body: Vec<u8>)
        requires
            self@.wf(),
            has_room(
                map@.len() as int,
                self@.layout.height as int,
                self@.layout.dumb_pitch as int,
                4 * self@.layout.width,
            ),
        ensures
            body@ == ppm::ppm_body_bytes(
                map@,
                self@.layout.width as int,
                self@.layout.height as int,
                self@.layout.dumb_pitch as int,
            ),
    {
        ppm::ppm_body(map, self.width, self.height, self.dumb_pitch)
    }

    /// Starts to end a frame.
    pub fn end_frame(&self) -> (phase: EndPhase)
        ensures
            phase == EndPhase::Submit,
    {
        EndPhase::Submit
    }

    /// What to do next to end a frame.
    pub fn end_action(&self, phase: EndPhase) -> (action: EndAction)
        requires
            self@.wf(),
        ensures
            action == self.frame(phase).wants(),
    {
        match phase {
            EndPhase::Submit => EndAction::CopyAndSubmit { copy: self.copy_to_readback() },
            EndPhase::Blit => EndAction::Blit { buffer: self.back },
            EndPhase::Dump => EndAction::Dump { buffer: self.back },
            EndPhase::Flip => EndAction::PageFlip {
                buffer: self.back,
                crtc: self.crtc,
                fb: self.bufs[self.back].fb,
                event: true,
            },
            EndPhase::Receive => EndAction::ReceiveEvents,
            EndPhase::Pause => EndAction::Pause { millis: FLIP_POLL_MILLIS },
            EndPhase::Done => EndAction::Done,
            EndPhase::Failed { site } => EndAction::Fail { site },
        }
    }

    /// Takes what came of an action, and tells how far the end of the frame has come.
    pub fn end_step(&mut self, phase: EndPhase, event: EndEvent) -> (next: EndPhase)
        requires
            old(self)@.wf(),
        ensures
            final(self)@.wf(),
            final(self).frame(next) == old(self).frame(phase).stepped(event@),
    {
        match (phase, event) {
            (EndPhase::Submit, EndEvent::Succeeded) => EndPhase::Blit,
            (EndPhase::Blit, EndEvent::Succeeded) => if self.dump_path.is_some() && !self.dumped {
                EndPhase::Dump
            } else {
                EndPhase::Flip
            },
            (EndPhase::Blit, EndEvent::Failed) => EndPhase::Failed { site: Site::MapBuffer },
            (EndPhase::Dump, EndEvent::Succeeded) => {
                self.dumped = true;
                EndPhase::Flip
            },
            (EndPhase::Dump, EndEvent::Failed) => {
                self.dumped = true;
                EndPhase::Flip
            },
            (EndPhase::Flip, EndEvent::Succeeded) => EndPhase::Receive,
            (EndPhase::Flip, EndEvent::Failed) => EndPhase::Failed { site: Site::PageFlip },
            (EndPhase::Receive, EndEvent::Received(events)) => if flip_seen(
                events.as_slice(),
                self.crtc,
            ) {
                self.back = 1 - self.back;
                EndPhase::Done
            } else {
                EndPhase::Pause
            },
            (EndPhase::Receive, EndEvent::Failed) => EndPhase::Failed {
                site: Site::ReceiveEvents,
            },
            (EndPhase::Pause, EndEvent::Succeeded) => EndPhase::Receive,
            _ => phase,
        }
    }
}

proof fn frame_keeps_its_buffer(start: Frame, events: Seq<EndEventView>)
    requires
        start.phase == EndPhase::Submit,
    ensures
        start.after(events).presenter == (PresenterView {
            back: start.after(events).presenter.back,
            dumped: start.after(events).presenter.dumped,
            ..start.presenter
        }),
        start.after(events).phase == EndPhase::Done ==> start.after(events).presenter.back == 1
            - start.presenter.back,
        start.after(events).phase != EndPhase::Done ==> start.after(events).presenter.back
            == start.presenter.back,
    decreases events.len(),
{
    if events.len() > 0 {
        frame_keeps_its_buffer(start, events.drop_last());
    }
}

/// The buffer that is shown is never written, saved or flipped to. While one buffer is shown
/// and the other is the back buffer, the frame goes to the back buffer, whatever comes of its
/// actions; and once the frame is done, which is when the flip to that buffer was seen, the
/// buffer that was shown before is the back buffer.
pub proof fn the_shown_buffer_is_not_written(
    start: Frame,
    shown: int,
    events: Seq<EndEventView>,
)
    requires
        start.phase == EndPhase::Submit,
        0 <= start.presenter.back < 2,
        shown == 1 - start.presenter.back,
    ensures
        start.after(events).wants() matches EndAction::Blit { buffer } ==> buffer != shown,
        start.after(events).wants() matches EndAction::Dump { buffer } ==> buffer != shown,
        start.after(events).wants() matches EndAction::PageFlip { buffer, .. } ==> buffer != shown,
        start.after(events).phase == EndPhase::Done ==> start.after(events).presenter.back == shown,
        start.after(events).phase != EndPhase::Done ==> start.after(events).presenter.back != shown,
{
    frame_keeps_its_buffer(start, events);
}

/// A frame is shown by a flip of the presenter's own CRTC to the framebuffer of the back buffer,
/// and an event is asked for. Whatever comes of the actions, the CRTC, the buffers and the
/// layout stay what they were.
pub proof fn the_flip_shows_the_back_buffer(start: Frame, events: Seq<EndEventView>)
    requires
        start.phase == EndPhase::Submit,
        start.presenter.wf(),
    ensures
        start.after(events).wants() matches EndAction::PageFlip { buffer, crtc, fb, event } ==> {
            &&& buffer == start.presenter.back
            &&& crtc == start.presenter.crtc
            &&& fb == start.presenter.bufs[start.presenter.back].fb
            &&& event
        },
        start.after(events).presenter.crtc == start.presenter.crtc,
        start.after(events).presenter.bufs == start.presenter.bufs,
        start.after(events).presenter.layout == start.presenter.layout,
        start.after(events).presenter.dump_path == start.presenter.dump_path,
{
    frame_keeps_its_buffer(start, events);
}

/// How far a phase is in the order of the steps that end a frame.
pub open spec fn stage(phase: EndPhase) -> int {
    match phase {
        EndPhase::Submit => 0,
        EndPhase::Blit => 1,
        EndPhase::Dump => 2,
        EndPhase::Flip => 3,
        EndPhase::Receive => 4,
        EndPhase::Pause => 4,
        EndPhase::Done => 5,
        EndPhase::Failed { .. } => 5,
    }
}

/// A frame is ended in one order: it is copied and submitted, written to the back buffer, saved
/// where it is to be saved, and flipped to; and none of this is done twice.
pub proof fn a_frame_is_ended_in_order(start: Frame, events: Seq<EndEventView>, i: int, j: int)
    requires
        0 <= i <= j <= events.len(),
    ensures
        ({
            let earlier = start.after(events.take(i)).phase;
            let later = start.after(events.take(j)).phase;
            &&& stage(earlier) <= stage(later)
            &&& stage(earlier) < 4 && later != earlier ==> stage(earlier) < stage(later)
        }),
    decreases j - i,
{
    if i < j {
        a_frame_is_ended_in_order(start, events, i, j - 1);
        assert(events.take(j).drop_last() =~= events.take(j - 1));
    }
}

/// The requested flip was looked for, and its event on the presenter's CRTC was received, at
/// event `i`.
pub open spec fn flip_seen_at(start: Frame, events: Seq<EndEventView>, i: int) -> bool {
    &&& 0 <= i < events.len()
    &&& start.after(events.take(i)).phase == EndPhase::Receive
    &&& events[i] matches EndEventView::Received(received)
    &&& holds_flip(received, start.presenter.crtc)
}

/// A frame is done only once its flip was requested and the event of the flip, on the CRTC of
/// the presenter, was received.
pub proof fn done_means_flip_seen(start: Frame, events: Seq<EndEventView>)
    requires
        start.phase == EndPhase::Submit,
        start.after(events).phase == EndPhase::Done,
    ensures
        exists|i: int| flip_seen_at(start, events, i),
    decreases events.len(),
{
    if events.len() > 0 {
        let earlier = events.drop_last();
        let n = earlier.len() as int;
        frame_keeps_its_buffer(start, earlier);
        if start.after(earlier).phase == EndPhase::Done {
            done_means_flip_seen(start, earlier);
            let i = choose|i: int| flip_seen_at(start, earlier, i);
            assert(events.take(i) =~= earlier.take(i));
            assert(flip_seen_at(start, events, i));
        } else {
            assert(events.take(n) =~= earlier);
            assert(flip_seen_at(start, events, n));
        }
    }
}

/// The copy into the back buffer was to be made, and succeeded, at event `i`.
pub open spec fn written_at(start: Frame, events: Seq<EndEventView>, i: int) -> bool {
    &&& 0 <= i < events.len()
    &&& start.after(events.take(i)).phase == EndPhase::Blit
    &&& events[i] == EndEventView::Succeeded
}

/// The copy into the back buffer succeeded while this frame was ended.
pub open spec fn written(start: Frame, events: Seq<EndEventView>) -> bool {
    exists|i: int| written_at(start, events, i)
}

/// A buffer is written before it is shown: the flip to it is requested only once the copy into
/// it has succeeded, and so the frame is done only then.
pub proof fn a_buffer_is_written_before_it_is_shown(start: Frame, events: Seq<EndEventView>)
    requires
        start.phase == EndPhase::Submit,
        start.after(events).phase == EndPhase::Dump || start.after(events).phase == EndPhase::Flip
            || start.after(events).phase == EndPhase::Receive || start.after(events).phase
            == EndPhase::Pause || start.after(events).phase == EndPhase::Done,
    ensures
        written(start, events),
    decreases events.len(),
{
    if events.len() > 0 {
        let earlier = events.drop_last();
        let n = earlier.len() as int;
        if start.after(earlier).phase == EndPhase::Blit {
            assert(events.take(n) =~= earlier);
            assert(written_at(start, events, n));
        } else {
            a_buffer_is_written_before_it_is_shown(start, earlier);
            let i = choose|i: int| written_at(start, earlier, i);
            assert(events.take(i) =~= earlier.take(i));
            assert(written_at(start, events, i));
        }
    }
}

impl Frame {
    /// The next frame of the same presenter.
    pub open spec fn next(self) -> Frame {
        Frame { phase: EndPhase::Submit, ..self }
    }

    /// The last of several frames, each of which was ended by events of its own.
    pub open spec fn after_frames(self, frames: Seq<Seq<EndEventView>>) -> Frame
        decreases frames.len(),
    {
        if frames.len() == 0 {
            self
        } else {
            self.after_frames(frames.drop_last()).next().after(frames.last())
        }
    }

    /// The buffer that is shown after several frames: that of the last frame that was done,
    /// or the one that was shown before them all.
    pub open spec fn shown_after(self, shown: int, frames: Seq<Seq<EndEventView>>) -> int
        decreases frames.len(),
    {
        if frames.len() == 0 {
            shown
        } else if self.after_frames(frames).phase == EndPhase::Done {
            self.after_frames(frames.drop_last()).presenter.back
        } else {
            self.shown_after(shown, frames.drop_last())
        }
    }

    /// The frame was shown, or its flip was never requested.
    pub open spec fn settled(self) -> bool {
        self.phase != EndPhase::Receive && self.phase != EndPhase::Pause && self.phase != (
        EndPhase::Failed { site: Site::ReceiveEvents })
    }
}

/// Double buffering is kept over any number of frames: as long as no requested flip is left
/// unseen, the back buffer is the one that is not shown. So no frame ever writes to the buffer
/// on the screen.
pub proof fn double_buffering_is_kept(
    start: Frame,
    shown: int,
    frames: Seq<Seq<EndEventView>>,
)
    requires
        0 <= start.presenter.back < 2,
        shown == 1 - start.presenter.back,
        forall|n: int|
            0 < n <= frames.len() ==> (#[trigger] start.after_frames(frames.take(n))).settled(),
    ensures
        0 <= start.after_frames(frames).presenter.back < 2,
        start.shown_after(shown, frames) == 1 - start.after_frames(frames).presenter.back,
    decreases frames.len(),
{
    if frames.len() > 0 {
        let earlier = frames.drop_last();
        assert forall|n: int| 0 < n <= earlier.len() implies (#[trigger] start.after_frames(
            earlier.take(n),
        )).settled() by {
            assert(earlier.take(n) =~= frames.take(n));
        }
        double_buffering_is_kept(start, shown, earlier);
        frame_keeps_its_buffer(start.after_frames(earlier).next(), frames.last());
    }
}

impl Frame {
    /// The frame is ended, well or not.
    pub open spec fn over(self) -> bool {
        self.phase == EndPhase::Done || self.phase is Failed
    }

    /// The frame at position `k` of several got past its copy into the back buffer.
    pub open spec fn wrote_frame(self, frames: Seq<Seq<EndEventView>>, k: int) -> bool {
        &&& 0 <= k < frames.len()
        &&& written(self.after_frames(frames.take(k)).next(), frames[k])
    }

    /// One of several frames got past its copy into the back buffer.
    pub open spec fn wrote_any(self, frames: Seq<Seq<EndEventView>>) -> bool {
        exists|k: int| self.wrote_frame(frames, k)
    }
}

proof fn saving_so_far(start: Frame, events: Seq<EndEventView>)
    requires
        start.phase == EndPhase::Submit,
    ensures
        ({
            let frame = start.after(events);
            &&& written(start, events) <==> frame.phase != EndPhase::Submit && frame.phase
                != EndPhase::Blit && frame.phase != (EndPhase::Failed { site: Site::MapBuffer })
            &&& frame.presenter.dumped == (start.presenter.dumped || (
            start.presenter.dump_path is Some && written(start, events) && frame.phase
                != EndPhase::Dump))
            &&& frame.presenter.dump_path == start.presenter.dump_path
            &&& frame.phase == EndPhase::Dump ==> start.to_be_saved()
        }),
    decreases events.len(),
{
    if events.len() > 0 {
        let earlier = events.drop_last();
        let n = earlier.len() as int;
        saving_so_far(start, earlier);
        assert(events.take(n) =~= earlier);
        if written(start, earlier) {
            let i = choose|i: int| written_at(start, earlier, i);
            assert(events.take(i) =~= earlier.take(i));
            assert(written_at(start, events, i));
        } else if start.after(earlier).phase == EndPhase::Blit && events.last()
            == EndEventView::Succeeded {
            assert(written_at(start, events, n));
        } else if written(start, events) {
            let i = choose|i: int| written_at(start, events, i);
            if i < n {
                assert(events.take(i) =~= earlier.take(i));
                assert(written_at(start, earlier, i));
            }
        }
    }
}

proof fn saved_so_far(start: Frame, frames: Seq<Seq<EndEventView>>)
    requires
        forall|n: int|
            0 < n <= frames.len() ==> (#[trigger] start.after_frames(frames.take(n))).over(),
    ensures
        start.after_frames(frames).presenter.dump_path == start.presenter.dump_path,
        start.after_frames(frames).presenter.dumped == (start.presenter.dumped || (
        start.presenter.dump_path is Some && start.wrote_any(frames))),
    decreases frames.len(),
{
    if frames.len() > 0 {
        let earlier = frames.drop_last();
        let n = earlier.len() as int;
        assert forall|m: int| 0 < m <= earlier.len() implies (#[trigger] start.after_frames(
            earlier.take(m),
        )).over() by {
            assert(earlier.take(m) =~= frames.take(m));
        }
        saved_so_far(start, earlier);
        let last = start.after_frames(earlier).next();
        saving_so_far(last, frames.last());
        assert(frames.take(n) =~= earlier);
        assert(frames.take(n + 1) =~= frames);
        assert(start.wrote_frame(frames, n) <==> written(last, frames.last()));
        if start.wrote_any(earlier) {
            let k = choose|k: int| start.wrote_frame(earlier, k);
            assert(earlier.take(k) =~= frames.take(k));
            assert(start.wrote_frame(frames, k));
        }
        if start.wrote_any(frames) && !written(last, frames.last()) {
            let k = choose|k: int| start.wrote_frame(frames, k);
            assert(earlier.take(k) =~= frames.take(k));
            assert(start.wrote_frame(earlier, k));
        }
    }
}

/// Whether a frame is saved is settled by the frames before it. Behind any number of frames
/// that are over, the copy of the next one into its buffer is followed by saving it if and only
/// if a file is named, no frame was saved before them all, and none of them got past its own
/// copy; no frame is saved anywhere else; and once a frame was saved, that is never forgotten.
pub proof fn only_the_first_frame_is_saved(
    start: Frame,
    frames: Seq<Seq<EndEventView>>,
    events: Seq<EndEventView>,
)
    requires
        forall|n: int|
            0 < n <= frames.len() ==> (#[trigger] start.after_frames(frames.take(n))).over(),
    ensures
        ({
            let next = start.after_frames(frames).next();
            let first = start.presenter.dump_path is Some && !start.presenter.dumped
                && !start.wrote_any(frames);
            &&& next.after(events).wants() is Dump ==> first
            &&& next.after(events).phase == EndPhase::Blit ==> (next.after(events).stepped(
                EndEventView::Succeeded,
            ).wants() is Dump <==> first)
            &&& first && next.after(events).wants() is PageFlip
                ==> next.after(events).presenter.dumped
            &&& next.presenter.dumped ==> next.after(events).presenter.dumped
            &&& start.presenter.dumped ==> next.presenter.dumped
        }),
{
    saved_so_far(start, frames);
    saving_so_far(start.after_frames(frames).next(), events);
}

/// The copy into the readback buffer is that of the whole texture that frames are rendered to and
/// of nothing else: a pixel is copied exactly where it is a pixel of the image, and the pixel at
/// (`x`, `y`) lands where the readback buffer holds it, four bytes for every pixel before it in
/// its row. Ending a frame starts with this copy, and it is so in every action of the frame that
/// asks for a copy.
pub proof fn the_copy_covers_the_texture(
    start: Frame,
    events: Seq<EndEventView>,
    x: int,
    y: int,
)
    requires
        start.phase == EndPhase::Submit,
    ensures
        ({
            let copy = start.presenter.copy();
            let layout = start.presenter.layout;
            &&& start.wants() == (EndAction::CopyAndSubmit { copy })
            &&& start.after(events).wants() matches EndAction::CopyAndSubmit { copy: wanted }
                ==> wanted == copy
            &&& 0 <= x < copy.width && 0 <= y < copy.height <==> 0 <= x < layout.width && 0 <= y
                < layout.height
            &&& copy.width == layout.width
            &&& copy.height == layout.height
            &&& copy.rows_per_image == layout.height
            &&& copy.offset + y * copy.bytes_per_row + 4 * x == y * layout.copy_bpr + 4 * x
        }),
{
    frame_keeps_its_buffer(start, events);
    assert(start.presenter.copy().bytes_per_row == start.presenter.layout.copy_bpr);
}

impl Frame {
    /// The flip that shows this frame: of the presenter's CRTC, to the framebuffer of the back
    /// buffer, with an event.
    pub open spec fn is_its_flip(self, action: EndAction) -> bool {
        &&& action matches EndAction::PageFlip { buffer, crtc, fb, event }
        &&& buffer == self.presenter.back
        &&& crtc == self.presenter.crtc
        &&& fb == self.presenter.bufs[self.presenter.back].fb
        &&& event
    }
}

/// How a frame that is being ended goes on while everything succeeds. The copy is followed by
/// the blit into the back buffer; that by saving this buffer where a file is named and nothing
/// was saved yet, and else by the flip; the save, whatever comes of it, by the flip; the flip by
/// a look for its event, which is repeated, a millisecond apart, until a batch holds the flip on
/// the presenter's own CRTC. Then the buffers change places, and all else stays.
pub proof fn a_frame_goes_on(frame: Frame, received: Seq<DrmEvent>)
    requires
        0 <= frame.presenter.back < 2,
    ensures
        ({
            let next = frame.stepped(EndEventView::Succeeded);
            &&& frame.wants() is CopyAndSubmit ==> next.wants() == (EndAction::Blit {
                buffer: frame.presenter.back as usize,
            }) && next.presenter == frame.presenter
            &&& frame.wants() is Blit && frame.presenter.dump_path is Some
                && !frame.presenter.dumped ==> next.wants() == (EndAction::Dump {
                buffer: frame.presenter.back as usize,
            }) && next.presenter == frame.presenter
            &&& frame.wants() is Blit && (frame.presenter.dump_path is None
                || frame.presenter.dumped) ==> frame.is_its_flip(next.wants()) && next.presenter
                == frame.presenter
            &&& frame.wants() is Dump ==> frame.is_its_flip(next.wants()) && next.presenter == (
            PresenterView { dumped: true, ..frame.presenter })
            &&& frame.wants() is Dump ==> frame.stepped(EndEventView::Failed) == next
            &&& frame.wants() is PageFlip ==> next.wants() == EndAction::ReceiveEvents
                && next.presenter == frame.presenter
            &&& frame.wants() is Pause ==> next.wants() == EndAction::ReceiveEvents
                && next.presenter == frame.presenter
        }),
        ({
            let looked = frame.stepped(EndEventView::Received(received));
            let seen = exists|i: int|
                0 <= i < received.len() && #[trigger] received[i] == (DrmEvent::PageFlip {
                    crtc: frame.presenter.crtc,
                });
            &&& frame.wants() == EndAction::ReceiveEvents && seen ==> looked.wants()
                == EndAction::Done && looked.presenter == (PresenterView {
                back: 1 - frame.presenter.back,
                ..frame.presenter
            })
            &&& frame.wants() == EndAction::ReceiveEvents && !seen ==> looked.wants() == (
            EndAction::Pause { millis: 1 }) && looked.presenter == frame.presenter
        }),
{
    if exists|i: int|
        0 <= i < received.len() && #[trigger] received[i] == (DrmEvent::PageFlip {
            crtc: frame.presenter.crtc,
        }) {
        assert(received.contains(DrmEvent::PageFlip { crtc: frame.presenter.crtc }));
    }
}

/// Where ending a frame fails: mapping the back buffer, the flip and the look for its event each
/// fail under their own name, and leave the presenter as it was. What does not answer the action
/// changes nothing, and neither does anything once the frame is done or has failed.
pub proof fn a_frame_fails_where_it_is(frame: Frame, received: Seq<DrmEvent>)
    ensures
        ({
            let failed = frame.stepped(EndEventView::Failed);
            &&& frame.wants() is Blit ==> failed.wants() == (EndAction::Fail {
                site: Site::MapBuffer,
            })
            &&& frame.wants() is PageFlip ==> failed.wants() == (EndAction::Fail {
                site: Site::PageFlip,
            })
            &&& frame.wants() is ReceiveEvents ==> failed.wants() == (EndAction::Fail {
                site: Site::ReceiveEvents,
            })
            &&& frame.wants() is CopyAndSubmit || frame.wants() is Pause ==> failed == frame
            &&& !(frame.wants() is Dump) ==> failed.presenter == frame.presenter
        }),
        !(frame.wants() is ReceiveEvents) ==> frame.stepped(EndEventView::Received(received))
            == frame,
        frame.wants() is ReceiveEvents ==> frame.stepped(EndEventView::Succeeded) == frame,
        forall|event: EndEventView|
            frame.wants() is Done || frame.wants() is Fail ==> #[trigger] frame.stepped(event)
                == frame,
{
}

/// The content of an event is what the event says; and a frame that a presenter ends is in the
/// phase that it is ended from, with that presenter as it is.
pub proof fn events_say_what_they_are(
    event: EndEvent,
    presenter: KmsCpuPresenter,
    phase: EndPhase,
)
    ensures
        event is Succeeded <==> event@ is Succeeded,
        event is Failed <==> event@ is Failed,
        event matches EndEvent::Received(events) ==> event@ == EndEventView::Received(events@),
        presenter.frame(phase).phase == phase,
        presenter.frame(phase).presenter == presenter@,
{
}

/// The text of an optional path is that of the path, where there is one.
pub proof fn a_path_keeps_its_text(path: Option<String>)
    ensures
        path is None ==> optional_path(path) is None,
        path matches Some(text) ==> optional_path(path) == Some(text@),
{
}

} // verus!
