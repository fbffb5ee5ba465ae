//! The ESC listener: polls input devices in turn until ESC is pressed on one of them.

use vstd::prelude::*;

verus! {

/// The key code of ESC.
pub const KEY_ESC: u16 = 1;

/// The value with which a key reports that it was pressed.
pub const VALUE_PRESSED: i32 = 1;

/// How long the listener pauses between two rounds over its devices, in milliseconds.
pub const ROUND_PAUSE_MILLIS: u64 = 10;

/// The event type under which keys report.
pub const EVENT_TYPE_KEY: u16 = 1;

/// One input event, by its three raw fields.
#[derive(Clone, Copy, Debug, PartialEq, Eq, Structural)]
pub struct InputEvent {
    pub event_type: u16,
    pub code: u16,
    pub value: i32,
}

/// The key that an event of this type and code is about, if it is about one.
pub open spec fn key_code(event_type: u16, code: u16) -> Option<u16> {
    if event_type == EVENT_TYPE_KEY {
        Some(code)
    } else {
        None
    }
}

/// `evdev::InputEvent::kind`, on an event with these raw fields: it is a key exactly where
/// the type is that of keys, and the key's code is then the event's own code.
#[verifier::external_body]
fn evdev_key(event_type: u16, code: u16, value: i32) -> (key: Option<u16>)
    ensures
        key == key_code(event_type, code),
{
    match evdev::InputEvent::new(evdev::EventType(event_type), code, value).kind() {
        evdev::InputEventKind::Key(key) => Some(key.code()),
        _ => None,
    }
}

impl InputEvent {
    /// The event says that ESC was pressed (not released, not repeated).
    pub open spec fn presses_esc(self) -> bool {
        &&& key_code(self.event_type, self.code) == Some(KEY_ESC)
        &&& self.value == VALUE_PRESSED
    }

    /// Whether this event says that ESC was pressed.
    pub fn is_esc_press(self) -> (pressed: bool)
        ensures
            pressed == self.presses_esc(),
    {
        match evdev_key(self.event_type, self.code, self.value) {
            Some(key) => key == KEY_ESC && self.value == VALUE_PRESSED,
            None => false,
        }
    }
}

/// Some event of the batch says that ESC was pressed.
pub open spec fn any_presses_esc(events: Seq<InputEvent>) -> bool {
    exists|i: int| 0 <= i < events.len() && (#[trigger] events[i]).presses_esc()
}

/// Whether some event of the batch says that ESC was pressed.
pub fn esc_pressed(events: &[InputEvent]) -> (pressed: bool)
    ensures
        pressed == any_presses_esc(events@),
{
    let mut i: usize = 0;
    while i < events.len()
        invariant
            i <= events@.len(),
            forall|k: int| 0 <= k < i ==> !(#[trigger] events@[k]).presses_esc(),
        decreases events@.len() - i,
    {
        if events[i].is_esc_press() {
            return true;
        }
        i += 1;
    }
    false
}

/// What the listener does next.
#[derive(Clone, Copy, Debug, PartialEq, Eq, Structural)]
pub enum EscAction {
    /// Read the pending events of this device.
    Fetch { device: usize },
    /// Sleep, then start the next round.
    Pause { millis: u64 },
    /// Report that ESC was pressed, and end.
    Signal,
}

/// The state of the listener: how many devices it polls, which one comes next, and whether
/// ESC was seen.
pub struct EscState {
    pub devices: usize,
    pub next: usize,
    pub seen: bool,
}

impl EscState {
    /// The next device is one of the devices, or the round is over.
    pub open spec fn wf(self) -> bool {
        self.next <= self.devices
    }

    /// What this state does next.
    pub open spec fn wants(self) -> EscAction {
        if self.seen {
            EscAction::Signal
        } else if self.next < self.devices {
            EscAction::Fetch { device: self.next }
        } else {
            EscAction::Pause { millis: ROUND_PAUSE_MILLIS }
        }
    }

    /// The listener once it has read the events of a device, with ESC among them or not.
    pub open spec fn fetched(self, pressed: bool) -> EscState {
        if pressed {
            EscState { seen: true, ..self }
        } else {
            EscState { next: (self.next + 1) as usize, ..self }
        }
    }

    /// The listener once the pause between two rounds is over.
    pub open spec fn paused(self) -> EscState {
        EscState { next: 0, ..self }
    }

    /// The listener behind a pause that is due.
    pub open spec fn rested(self) -> EscState {
        if self.wants() is Pause {
            self.paused()
        } else {
            self
        }
    }

    /// The listener once several reads, with pauses between the rounds, each had ESC among
    /// their events or not.
    pub open spec fn after(self, pressed: Seq<bool>) -> EscState
        decreases pressed.len(),
    {
        if pressed.len() == 0 {
            self
        } else {
            let before = self.after(pressed.drop_last()).rested();
            if before.wants() is Fetch {
                before.fetched(pressed.last())
            } else {
                before
            }
        }
    }
}

/// Listens for ESC.
#[derive(Debug)]
pub struct EscListener {
    devices: usize,
    next: usize,
    seen: bool,
}

impl View for EscListener {
    type V = EscState;

    closed spec fn view(&self) -> EscState {
        EscState { devices: self.devices, next: self.next, seen: self.seen }
    }
}

impl EscListener {
    /// A listener over this many devices, at the start of its first round.
    pub fn spawn_esc_listener(devices: usize) -> (listener: Self)
        ensures
            listener@.wf(),
            listener@ == (EscState { devices, next: 0, seen: false }),
    {
        EscListener { devices, next: 0, seen: false }
    }

    /// What to do next.
    pub fn action(&self) -> (action: EscAction)
        ensures
            action == self@.wants(),
    {
        if self.seen {
            EscAction::Signal
        } else if self.next < self.devices {
            EscAction::Fetch { device: self.next }
        } else {
            EscAction::Pause { millis: ROUND_PAUSE_MILLIS }
        }
    }

    /// Takes the events of the device that was asked for; `None` where reading them failed.
    pub fn on_events(&mut self, events: Option<&[InputEvent]>)
        requires
            old(self)@.wf(),
            old(self)@.wants() is Fetch,
        ensures
            final(self)@.wf(),
            final(self)@ == old(self)@.fetched(
                events matches Some(batch) && any_presses_esc(batch@),
            ),
    {
        let pressed: bool = match events {
            Some(batch) => esc_pressed(batch),
            None => false,
        };
        if pressed {
            self.seen = true;
        } else {
            self.next = self.next + 1;
        }
    }

    /// Takes note that the pause between two rounds is over.
    pub fn on_pause_over(&mut self)
        requires
            old(self)@.wf(),
            old(self)@.wants() is Pause,
        ensures
            final(self)@.wf(),
            final(self)@ == old(self)@.paused(),
    {
        self.next = 0;
    }
}

/// The devices are read in turn, again and again, until ESC is pressed on one of them; and
/// only then is it reported. Without a device there is nothing but pauses, and ESC is never
/// reported.
pub proof fn devices_are_read_in_turn(devices: usize, pressed: Seq<bool>)
    ensures
        ({
            let listener = (EscState { devices, next: 0, seen: false }).after(pressed);
            &&& devices > 0 ==> (listener.wants() is Signal <==> pressed.contains(true))
            &&& devices > 0 && !pressed.contains(true) ==> listener.rested().wants() == (
            EscAction::Fetch { device: (pressed.len() % devices as nat) as usize })
            &&& devices > 0 && !pressed.contains(true) ==> (listener.wants() == (EscAction::Pause {
                millis: 10,
            }) <==> pressed.len() > 0 && pressed.len() % devices as nat == 0)
            &&& devices == 0 ==> listener.wants() == (EscAction::Pause { millis: 10 })
                && listener.rested() == listener
            &&& listener.devices == devices
            &&& listener.wf()
        }),
    decreases pressed.len(),
{
    if pressed.len() > 0 {
        let earlier = pressed.drop_last();
        devices_are_read_in_turn(devices, earlier);
        assert(pressed =~= earlier.push(pressed.last()));
        assert(pressed[pressed.len() - 1] == pressed.last());
        if earlier.contains(true) {
            let i = choose|i: int| 0 <= i < earlier.len() && earlier[i];
            assert(pressed[i]);
        }
        if pressed.contains(true) && !pressed.last() {
            let i = choose|i: int| 0 <= i < pressed.len() && pressed[i];
            assert(earlier[i]);
        }
        let n = earlier.len() as int;
        let d = devices as int;
        if d > 0 {
            assert((n + 1) % d == (if n % d + 1 == d {
                0
            } else {
                n % d + 1
            })) by (nonlinear_arith)
                requires
                    d > 0,
                    n >= 0,
            ;
        }
    }
}

/// Among all events, a press of ESC is the key event with the code of ESC and the value of a
/// press; a batch holds one exactly where one of its events is that.
pub proof fn a_press_of_esc_is_one_event(event: InputEvent, batch: Seq<InputEvent>)
    ensures
        event.presses_esc() <==> event == (InputEvent { event_type: 1, code: 1, value: 1 }),
        any_presses_esc(batch) <==> batch.contains(
            InputEvent { event_type: 1, code: 1, value: 1 },
        ),
{
    let press = InputEvent { event_type: 1, code: 1, value: 1 };
    if batch.contains(press) {
        let i = choose|i: int| 0 <= i < batch.len() && batch[i] == press;
        assert(batch[i].presses_esc());
    }
    if any_presses_esc(batch) {
        let i = choose|i: int| 0 <= i < batch.len() && (#[trigger] batch[i]).presses_esc();
        assert(batch[i] == press);
    }
}

/// A listener that has seen ESC goes on to say so, and one that has not goes on with the device
/// behind the one it has read, whether reading that failed or brought something else.
pub proof fn a_read_is_followed_by_the_next_device(listener: EscState, device: usize)
    requires
        listener.wants() == (EscAction::Fetch { device }),
    ensures
        listener.fetched(true).wants() == EscAction::Signal,
        listener.fetched(false).wants() == (if device + 1 < listener.devices {
            EscAction::Fetch { device: (device + 1) as usize }
        } else {
            EscAction::Pause { millis: 10 }
        }),
        listener.fetched(false).devices == listener.devices,
{
}

} // verus!
