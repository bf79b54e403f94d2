//! Captured input events and the store that keeps them in arrival order.
use vstd::prelude::*;

verus! {

/// How many parts of a pointer delta make one unit of the device. Deltas are
/// fixed-point numbers: `1_500_000` is one unit and a half.
pub const MOTION_SCALE: i64 = 1_000_000;

/// Whether a key went down or came up.
#[derive(Clone, Copy, Debug, PartialEq, Eq, Structural)]
pub enum KeyState {
    Pressed,
    Released,
}

/// One captured occurrence.
#[derive(Clone, Copy, Debug, PartialEq, Eq, Structural)]
pub enum Event {
    /// A key changed state at the given time.
    KeyEvent { code: u32, state: KeyState, timestamp_usec: u64 },
    /// The pointer moved by `dx` and `dy` parts, before any acceleration.
    PointerMotion { dx: i64, dy: i64, timestamp_usec: u64 },
    /// A pointer button changed; `seat_count` is how many such buttons are
    /// held down on the seat afterwards. It carries no time of its own.
    PointerButton { button: u32, seat_count: u32 },
    /// Anything else. It keeps its place in the order and is never replayed.
    Other,
}

/// The events of one recording, in arrival order.
pub struct EventStore {
    events: Vec<Event>,
}

impl View for EventStore {
    type V = Seq<Event>;

    closed spec fn view(&self) -> Seq<Event> {
        self.events@
    }
}

impl EventStore {
    /// An empty store.
    pub fn new() -> (store: EventStore)
        ensures
            store@ == Seq::<Event>::empty(),
    {
        EventStore { events: Vec::new() }
    }

    /// Puts `event` behind all that is stored.
    pub fn append(&mut self, event: Event)
        ensures
            final(self)@ == old(self)@.push(event),
    {
        self.events.push(event);
    }

    /// Forgets every event. It never fails and asks nothing of the store, so
    /// it leaves an empty store empty, and clearing twice is clearing once.
    pub fn clear(&mut self)
        ensures
            final(self)@ == Seq::<Event>::empty(),
            final(self)@.len() == 0,
    {
        self.events.clear();
    }

    /// How many events are stored.
    pub fn len(&self) -> (n: usize)
        ensures
            n == self@.len(),
    {
        self.events.len()
    }

    /// Whether nothing is stored.
    pub fn is_empty(&self) -> (empty: bool)
        ensures
            empty == (self@.len() == 0),
    {
        self.events.len() == 0
    }

    /// The stored events from the first to the last. Reading changes nothing,
    /// so every reading starts from the first again.
    pub fn iterate(&self) -> (events: &Vec<Event>)
        ensures
            events@ == self@,
    {
        &self.events
    }
}

} // verus!
