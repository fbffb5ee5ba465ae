//! A frame loop that has no timer: a frame is due once enough time has passed since the last
//! one, and is then begun, rendered and ended. The first error ends the loop.

use vstd::prelude::*;

verus! {

/// The time from one frame to the next, in nanoseconds.
pub const FRAME_NANOS: u128 = 16_000_000;

/// How long to sleep before the next look at the clock, in milliseconds.
pub const IDLE_MILLIS: u64 = 1;

/// How far the loop has come. A command encoder is told from others by a number.
#[derive(Debug)]
pub enum LoopPhase<E> {
    /// The clock is to be looked at.
    Look,
    /// No frame is due yet.
    Sleep,
    /// A frame is due.
    Begin,
    /// The frame was begun and is to be rendered.
    Render { encoder: u64 },
    /// The frame was rendered and is to be ended.
    End { encoder: u64 },
    /// A frame could not be rendered or ended.
    Failed { error: E },
}

/// What the loop does next.
#[derive(Clone, Copy, Debug, PartialEq, Eq, Structural)]
pub enum LoopAction {
    /// Read the clock.
    ReadClock,
    /// Sleep this long.
    Sleep { millis: u64 },
    /// Begin a frame, which gives a command encoder.
    Begin,
    /// Have the frame rendered into this encoder.
    Render { encoder: u64 },
    /// End the frame with this encoder.
    End { encoder: u64 },
    /// Return the error.
    Fail,
}

/// What came of an action.
#[derive(Debug)]
pub enum LoopEvent<E> {
    /// The time, in nanoseconds.
    Clock { now: u128 },
    /// The encoder of the frame that was begun.
    Begun { encoder: u64 },
    Succeeded,
    Failed { error: E },
}

/// The loop: the time of the last frame in nanoseconds, and how far it has come.
#[derive(Debug)]
pub struct FrameLoop<E> {
    pub last: u128,
    pub phase: LoopPhase<E>,
}

impl<E> FrameLoop<E> {
    /// A frame is due at this time.
    pub open spec fn due(self, now: u128) -> bool {
        now >= self.last + FRAME_NANOS
    }

    /// What the loop does next.
    pub open spec fn wants(self) -> LoopAction {
        match self.phase {
            LoopPhase::Look => LoopAction::ReadClock,
            LoopPhase::Sleep => LoopAction::Sleep { millis: IDLE_MILLIS },
            LoopPhase::Begin => LoopAction::Begin,
            LoopPhase::Render { encoder } => LoopAction::Render { encoder },
            LoopPhase::End { encoder } => LoopAction::End { encoder },
            LoopPhase::Failed { .. } => LoopAction::Fail,
        }
    }

    /// The loop in another phase.
    pub open spec fn in_phase(self, phase: LoopPhase<E>) -> FrameLoop<E> {
        FrameLoop { phase, ..self }
    }

    /// The loop after a look at the clock.
    pub open spec fn looked(self, now: u128) -> FrameLoop<E> {
        if self.due(now) {
            FrameLoop { last: now, phase: LoopPhase::Begin }
        } else {
            self.in_phase(LoopPhase::Sleep)
        }
    }

    /// The loop once an action came to this. What does not answer the action changes nothing.
    pub open spec fn stepped(self, event: LoopEvent<E>) -> FrameLoop<E> {
        match (self.phase, event) {
            (LoopPhase::Look, LoopEvent::Clock { now }) => self.looked(now),
            (LoopPhase::Sleep, LoopEvent::Succeeded) => self.in_phase(LoopPhase::Look),
            (LoopPhase::Begin, LoopEvent::Begun { encoder }) => self.in_phase(
                LoopPhase::Render { encoder },
            ),
            (LoopPhase::Render { encoder }, LoopEvent::Succeeded) => self.in_phase(
                LoopPhase::End { encoder },
            ),
            (LoopPhase::Render { .. }, LoopEvent::Failed { error }) => self.in_phase(
                LoopPhase::Failed { error },
            ),
            (LoopPhase::End { .. }, LoopEvent::Succeeded) => self.in_phase(LoopPhase::Look),
            (LoopPhase::End { .. }, LoopEvent::Failed { error }) => self.in_phase(
                LoopPhase::Failed { error },
            ),
            _ => self,
        }
    }

    /// The loop once its actions came to all this.
    pub open spec fn after(self, events: Seq<LoopEvent<E>>) -> FrameLoop<E>
        decreases events.len(),
    {
        if events.len() == 0 {
            self
        } else {
            self.after(events.drop_last()).stepped(events.last())
        }
    }

    /// The loop once its actions came to the first `n` of these events.
    pub open spec fn at(self, events: Seq<LoopEvent<E>>, n: int) -> FrameLoop<E> {
        self.after(events.take(n))
    }

    /// A loop whose first frame is due a full frame time from now on.
    pub fn frame_loop(now: u128) -> (frames: Self)
        ensures
            frames == (FrameLoop { last: now, phase: LoopPhase::<E>::Look }),
    {
        FrameLoop { last: now, phase: LoopPhase::Look }
    }

    /// What to do next.
    pub fn action(&self) -> (action: LoopAction)
        ensures
            action == self.wants(),
    {
        match &self.phase {
            LoopPhase::Look => LoopAction::ReadClock,
            LoopPhase::Sleep => LoopAction::Sleep { millis: IDLE_MILLIS },
            LoopPhase::Begin => LoopAction::Begin,
            LoopPhase::Render { encoder } => LoopAction::Render { encoder: *encoder },
            LoopPhase::End { encoder } => LoopAction::End { encoder: *encoder },
            LoopPhase::Failed { .. } => LoopAction::Fail,
        }
    }

    /// Looks at the clock. A clock that runs backwards counts as one that stands still.
    fn look(&mut self, now: u128)
        ensures
            *final(self) == old(self).looked(now),
    {
        if now < self.last || now - self.last < FRAME_NANOS {
            self.phase = LoopPhase::Sleep;
        } else {
            self.last = now;
            self.phase = LoopPhase::Begin;
        }
    }

    /// Takes what came of an action.
    pub fn step(&mut self, event: LoopEvent<E>)
        ensures
            *final(self) == old(self).stepped(event),
    {
        match (&self.phase, event) {
            (LoopPhase::Look, LoopEvent::Clock { now }) => {
                self.look(now);
            },
            (LoopPhase::Sleep, LoopEvent::Succeeded) => {
                self.phase = LoopPhase::Look;
            },
            (LoopPhase::Begin, LoopEvent::Begun { encoder }) => {
                self.phase = LoopPhase::Render { encoder };
            },
            (LoopPhase::Render { encoder }, LoopEvent::Succeeded) => {
                let rendered: u64 = *encoder;
                self.phase = LoopPhase::End { encoder: rendered };
            },
            (LoopPhase::Render { .. }, LoopEvent::Failed { error }) => {
                self.phase = LoopPhase::Failed { error };
            },
            (LoopPhase::End { .. }, LoopEvent::Succeeded) => {
                self.phase = LoopPhase::Look;
            },
            (LoopPhase::End { .. }, LoopEvent::Failed { error }) => {
                self.phase = LoopPhase::Failed { error };
            },
            _ => {},
        }
    }

    /// The error that has ended the loop, where one has.
    pub fn into_error(self) -> (error: Option<E>)
        ensures
            error == (match self.phase {
                LoopPhase::Failed { error } => Some(error),
                _ => None,
            }),
    {
        match self.phase {
            LoopPhase::Failed { error } => Some(error),
            _ => None,
        }
    }

    /// A frame was to be begun, and event `i` gave its encoder.
    pub open spec fn begun_at(self, events: Seq<LoopEvent<E>>, i: int, encoder: u64) -> bool {
        &&& 0 <= i < events.len()
        &&& self.at(events, i).wants() == LoopAction::Begin
        &&& events[i] == (LoopEvent::<E>::Begun { encoder })
    }

    /// A frame was to be rendered into this encoder, and was, at event `i`.
    pub open spec fn rendered_at(self, events: Seq<LoopEvent<E>>, i: int, encoder: u64) -> bool {
        &&& 0 <= i < events.len()
        &&& self.at(events, i).wants() == (LoopAction::Render { encoder })
        &&& events[i] == LoopEvent::<E>::Succeeded
    }

    /// A frame was to be ended with this encoder, and was, at event `i`.
    pub open spec fn ended_at(self, events: Seq<LoopEvent<E>>, i: int, encoder: u64) -> bool {
        &&& 0 <= i < events.len()
        &&& self.at(events, i).wants() == (LoopAction::End { encoder })
        &&& events[i] == LoopEvent::<E>::Succeeded
    }

    /// A frame was to be rendered or ended, and that failed, at event `i`.
    pub open spec fn failed_at(self, events: Seq<LoopEvent<E>>, i: int, error: E) -> bool {
        &&& 0 <= i < events.len()
        &&& self.at(events, i).wants() is Render || self.at(events, i).wants() is End
        &&& events[i] == (LoopEvent::Failed { error })
    }

    /// A frame was found due at this time, at event `i`.
    pub open spec fn due_at(self, events: Seq<LoopEvent<E>>, i: int, now: u128) -> bool {
        &&& 0 <= i < events.len()
        &&& self.at(events, i).wants() == LoopAction::ReadClock
        &&& events[i] == (LoopEvent::<E>::Clock { now })
        &&& self.at(events, i + 1).wants() == LoopAction::Begin
    }

    /// The loop wants this and nothing else behind event `i`, up to the state after `n` events.
    pub open spec fn wants_since(
        self,
        events: Seq<LoopEvent<E>>,
        i: int,
        n: int,
        action: LoopAction,
    ) -> bool {
        forall|m: int| i < m <= n ==> (#[trigger] self.at(events, m)).wants() == action
    }

    /// The frame that is being rendered: event `i` gave its encoder, and nothing else was done
    /// since.
    pub open spec fn renders_since(
        self,
        events: Seq<LoopEvent<E>>,
        n: int,
        i: int,
        encoder: u64,
    ) -> bool {
        &&& i < n
        &&& self.begun_at(events, i, encoder)
        &&& self.wants_since(events, i, n, LoopAction::Render { encoder })
    }

    /// The frame that is being ended: event `i` gave its encoder, at event `j` it was rendered
    /// into that encoder, and nothing else was done since.
    pub open spec fn ends_since(
        self,
        events: Seq<LoopEvent<E>>,
        n: int,
        i: int,
        j: int,
        encoder: u64,
    ) -> bool {
        &&& i < j < n
        &&& self.begun_at(events, i, encoder)
        &&& self.wants_since(events, i, j, LoopAction::Render { encoder })
        &&& self.rendered_at(events, j, encoder)
        &&& self.wants_since(events, j, n, LoopAction::End { encoder })
    }

    /// Between events `i` and `n` a frame was ended once, with this encoder, at event `k`.
    pub open spec fn ended_once(
        self,
        events: Seq<LoopEvent<E>>,
        i: int,
        n: int,
        k: int,
        encoder: u64,
    ) -> bool {
        &&& i < k < n
        &&& self.ended_at(events, k, encoder)
        &&& forall|m: int, other: u64|
            i < m < n && #[trigger] self.ended_at(events, m, other) ==> m == k && other == encoder
    }
}

proof fn one_more_event<E>(frames: FrameLoop<E>, events: Seq<LoopEvent<E>>, n: int)
    requires
        0 <= n < events.len(),
    ensures
        frames.at(events, n + 1) == frames.at(events, n).stepped(events[n]),
{
    assert(events.take(n + 1).drop_last() =~= events.take(n));
}

proof fn rendering_so_far<E>(
    frames: FrameLoop<E>,
    events: Seq<LoopEvent<E>>,
    n: int,
    encoder: u64,
)
    requires
        frames.phase == LoopPhase::<E>::Look,
        0 <= n <= events.len(),
        frames.at(events, n).wants() == (LoopAction::Render { encoder }),
    ensures
        exists|i: int| frames.renders_since(events, n, i, encoder),
    decreases n,
{
    assert(frames.at(events, 0) == frames);
    let p = n - 1;
    one_more_event(frames, events, p);
    if frames.at(events, p).wants() == (LoopAction::Render { encoder }) {
        rendering_so_far(frames, events, p, encoder);
        let i = choose|i: int| frames.renders_since(events, p, i, encoder);
        assert(frames.renders_since(events, n, i, encoder));
    } else {
        assert(frames.renders_since(events, n, p, encoder));
    }
}

proof fn ending_so_far<E>(frames: FrameLoop<E>, events: Seq<LoopEvent<E>>, n: int, encoder: u64)
    requires
        frames.phase == LoopPhase::<E>::Look,
        0 <= n <= events.len(),
        frames.at(events, n).wants() == (LoopAction::End { encoder }),
    ensures
        exists|i: int, j: int| frames.ends_since(events, n, i, j, encoder),
    decreases n,
{
    assert(frames.at(events, 0) == frames);
    let p = n - 1;
    one_more_event(frames, events, p);
    if frames.at(events, p).wants() == (LoopAction::End { encoder }) {
        ending_so_far(frames, events, p, encoder);
        let (i, j) = choose|i: int, j: int| frames.ends_since(events, p, i, j, encoder);
        assert(frames.ends_since(events, n, i, j, encoder));
    } else {
        rendering_so_far(frames, events, p, encoder);
        let i = choose|i: int| frames.renders_since(events, p, i, encoder);
        assert(frames.ends_since(events, n, i, p, encoder));
    }
}

/// In every frame the loop begins, renders and ends, in this order and with nothing in between.
/// A frame is rendered into the encoder that its own beginning gave, and ended with that same
/// encoder once rendering it has succeeded.
pub proof fn frames_go_begin_render_end<E>(frames: FrameLoop<E>, events: Seq<LoopEvent<E>>)
    requires
        frames.phase == LoopPhase::<E>::Look,
    ensures
        frames.after(events).wants() matches LoopAction::Render { encoder } ==> exists|i: int|
            frames.renders_since(events, events.len() as int, i, encoder),
        frames.after(events).wants() matches LoopAction::End { encoder } ==> exists|
            i: int,
            j: int,
        | frames.ends_since(events, events.len() as int, i, j, encoder),
{
    let n = events.len() as int;
    assert(events.take(n) =~= events);
    match frames.after(events).wants() {
        LoopAction::Render { encoder } => {
            rendering_so_far(frames, events, n, encoder);
        },
        LoopAction::End { encoder } => {
            ending_so_far(frames, events, n, encoder);
        },
        _ => {},
    }
}

proof fn since_a_render<E>(
    frames: FrameLoop<E>,
    events: Seq<LoopEvent<E>>,
    i: int,
    encoder: u64,
    n: int,
)
    requires
        frames.rendered_at(events, i, encoder),
        i < n <= events.len(),
        forall|m: int| i < m < n ==> (#[trigger] frames.at(events, m)).wants() != LoopAction::Begin,
    ensures
        match frames.at(events, n).phase {
            LoopPhase::End { encoder: other } => other == encoder && forall|m: int, e: u64|
                i < m < n ==> !(#[trigger] frames.ended_at(events, m, e)),
            LoopPhase::Failed { .. } => true,
            LoopPhase::Render { .. } => false,
            _ => exists|k: int| frames.ended_once(events, i, n, k, encoder),
        },
    decreases n - i,
{
    let p = n - 1;
    one_more_event(frames, events, p);
    if p > i {
        since_a_render(frames, events, i, encoder, p);
        match frames.at(events, p).phase {
            LoopPhase::End { .. } => {
                if events[p] is Succeeded {
                    assert(frames.ended_once(events, i, n, p, encoder));
                }
            },
            LoopPhase::Failed { .. } => {},
            _ => {
                let k = choose|k: int| frames.ended_once(events, i, p, k, encoder);
                assert(frames.ended_once(events, i, n, k, encoder));
            },
        }
    }
}

/// Where rendering a frame has succeeded, the frame is ended exactly once, with the encoder
/// that it was rendered into, before the next frame is begun.
pub proof fn a_rendered_frame_is_ended_once<E>(
    frames: FrameLoop<E>,
    events: Seq<LoopEvent<E>>,
    rendered: int,
    encoder: u64,
    next: int,
)
    requires
        frames.rendered_at(events, rendered, encoder),
        rendered < next <= events.len(),
        frames.at(events, next).wants() == LoopAction::Begin,
        forall|m: int|
            rendered < m < next ==> (#[trigger] frames.at(events, m)).wants() != LoopAction::Begin,
    ensures
        exists|k: int| frames.ended_once(events, rendered, next, k, encoder),
{
    since_a_render(frames, events, rendered, encoder, next);
}

proof fn failure_is_kept<E>(
    frames: FrameLoop<E>,
    events: Seq<LoopEvent<E>>,
    i: int,
    error: E,
    n: int,
)
    requires
        frames.failed_at(events, i, error),
        i < n <= events.len(),
    ensures
        frames.at(events, n).phase == (LoopPhase::Failed { error }),
    decreases n,
{
    one_more_event(frames, events, n - 1);
    if n - 1 > i {
        failure_is_kept(frames, events, i, error, n - 1);
    }
}

/// The first error ends the loop as it is: once a frame could not be rendered or ended, the
/// loop holds that error, and nothing is begun, rendered or ended any more. So a frame that
/// could not be rendered is never ended.
pub proof fn the_first_error_ends_the_loop<E>(
    frames: FrameLoop<E>,
    events: Seq<LoopEvent<E>>,
    i: int,
    error: E,
)
    requires
        frames.failed_at(events, i, error),
    ensures
        frames.after(events).phase == (LoopPhase::Failed { error }),
        frames.wants_since(events, i, events.len() as int, LoopAction::Fail),
{
    assert(events.take(events.len() as int) =~= events);
    assert forall|n: int| i < n <= events.len() implies (#[trigger] frames.at(events, n)).wants()
        == LoopAction::Fail by {
        failure_is_kept(frames, events, i, error, n);
    }
    failure_is_kept(frames, events, i, error, events.len() as int);
}

/// Nothing but an error ends the loop: where it holds one, a frame could not be rendered or
/// ended for just that reason.
pub proof fn only_an_error_ends_the_loop<E>(
    frames: FrameLoop<E>,
    events: Seq<LoopEvent<E>>,
    error: E,
)
    requires
        frames.phase == LoopPhase::<E>::Look,
        frames.after(events).phase == (LoopPhase::Failed { error }),
    ensures
        exists|i: int| frames.failed_at(events, i, error),
    decreases events.len(),
{
    if events.len() > 0 {
        let earlier = events.drop_last();
        let n = earlier.len() as int;
        assert(events.take(n) =~= earlier);
        if frames.after(earlier).phase == (LoopPhase::Failed { error }) {
            only_an_error_ends_the_loop(frames, earlier, error);
            let i = choose|i: int| frames.failed_at(earlier, i, error);
            assert(events.take(i) =~= earlier.take(i));
            assert(frames.failed_at(events, i, error));
        } else {
            assert(frames.failed_at(events, n, error));
        }
    }
}

proof fn last_frame_only_moves_on<E>(
    frames: FrameLoop<E>,
    events: Seq<LoopEvent<E>>,
    i: int,
    n: int,
)
    requires
        0 <= i <= n <= events.len(),
    ensures
        frames.at(events, i).last <= frames.at(events, n).last,
    decreases n - i,
{
    if i < n {
        last_frame_only_moves_on(frames, events, i, n - 1);
        one_more_event(frames, events, n - 1);
    }
}

/// No frame is due before the frame time has passed since the start of the loop.
pub proof fn a_frame_is_waited_for<E>(
    frames: FrameLoop<E>,
    events: Seq<LoopEvent<E>>,
    i: int,
    time: u128,
)
    requires
        frames.due_at(events, i, time),
    ensures
        time >= frames.last + FRAME_NANOS,
{
    one_more_event(frames, events, i);
    last_frame_only_moves_on(frames, events, 0, i);
    assert(frames.at(events, 0) == frames);
}

/// Any two frames are at least the frame time apart.
pub proof fn frames_are_spaced<E>(
    frames: FrameLoop<E>,
    events: Seq<LoopEvent<E>>,
    first: int,
    first_time: u128,
    second: int,
    second_time: u128,
)
    requires
        first < second,
        frames.due_at(events, first, first_time),
        frames.due_at(events, second, second_time),
    ensures
        second_time >= first_time + FRAME_NANOS,
{
    one_more_event(frames, events, first);
    one_more_event(frames, events, second);
    last_frame_only_moves_on(frames, events, first + 1, second);
}

/// How the loop goes on while everything succeeds. It starts by reading the clock. Where the time
/// is at least 16 milliseconds behind that of the last frame, or of the start before the first, a
/// frame is begun, and that time is the new one to count from; else the loop sleeps for a
/// millisecond and reads the clock again. A frame that was begun is rendered into its encoder, a
/// frame that was rendered is ended with it, and the clock is read again.
pub proof fn the_loop_goes_on<E>(frames: FrameLoop<E>, now: u128, begun: u64)
    ensures
        (FrameLoop::<E> { last: now, phase: LoopPhase::Look }).wants() == LoopAction::ReadClock,
        ({
            let looked = frames.stepped(LoopEvent::Clock { now });
            &&& frames.wants() == LoopAction::ReadClock && now - frames.last >= 16_000_000
                ==> looked.wants() == LoopAction::Begin && looked.last == now
            &&& frames.wants() == LoopAction::ReadClock && now - frames.last < 16_000_000
                ==> looked.wants() == (LoopAction::Sleep { millis: 1 }) && looked.last
                == frames.last
            &&& frames.wants() != LoopAction::ReadClock ==> looked == frames
        }),
        ({
            let begins = frames.stepped(LoopEvent::Begun { encoder: begun });
            &&& frames.wants() == LoopAction::Begin ==> begins.wants() == (LoopAction::Render {
                encoder: begun,
            })
            &&& frames.wants() != LoopAction::Begin ==> begins == frames
            &&& begins.last == frames.last
        }),
        ({
            let next = frames.stepped(LoopEvent::Succeeded);
            &&& next.last == frames.last
            &&& frames.wants() is Sleep ==> next.wants() == LoopAction::ReadClock
            &&& frames.wants() matches LoopAction::Render { encoder } ==> next.wants() == (
            LoopAction::End { encoder })
            &&& frames.wants() is End ==> next.wants() == LoopAction::ReadClock
            &&& frames.wants() is ReadClock || frames.wants() is Begin || frames.wants() is Fail
                ==> next == frames
        }),
{
}

/// Where the loop fails: rendering or ending a frame brings it to return just that error, and
/// nothing else that fails does; and once it returns an error nothing changes any more.
pub proof fn the_loop_fails_with_its_error<E>(frames: FrameLoop<E>, error: E, event: LoopEvent<E>)
    ensures
        ({
            let failed = frames.stepped(LoopEvent::Failed { error });
            &&& frames.wants() is Render || frames.wants() is End ==> failed.wants()
                == LoopAction::Fail && failed.phase == (LoopPhase::Failed { error })
            &&& !(frames.wants() is Render || frames.wants() is End) ==> failed == frames
            &&& failed.last == frames.last
        }),
        frames.wants() is Fail ==> frames.stepped(event) == frames,
{
}

} // verus!
