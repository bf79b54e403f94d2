//! The replay engine: from the stored events to the commands that reproduce
//! them, with the recorded timing scaled and fractional pointer motion kept.
use vstd::prelude::*;

use crate::event::{Event, KeyState, MOTION_SCALE};
use crate::uinput::uinput_sys::input_event;
use crate::uinput::{
    record, EventType, Key, Stage, UInput, AXIS_X, AXIS_Y, BTN_LEFT, BTN_RIGHT,
};

verus! {

/// The speed at which a replay takes as long as the recording did. Speeds
/// are fixed-point numbers in millionths: `2_000_000` is twice as fast.
pub const SPEED_UNIT: u64 = 1_000_000;

/// Nanoseconds in a second.
pub const NANOS_PER_SEC: u32 = 1_000_000_000;

/// A length of time: whole seconds and the nanoseconds beyond them.
#[derive(Clone, Copy, Debug, PartialEq, Eq, Structural)]
pub struct Span {
    pub secs: u64,
    pub nanos: u32,
}

impl Span {
    /// The span in nanoseconds.
    pub open spec fn total_nanos(self) -> int {
        self.secs * NANOS_PER_SEC + self.nanos
    }
}

/// How a session records and replays.
#[derive(Clone, Copy, Debug, PartialEq, Eq, Structural)]
pub struct Options {
    /// The replay speed in millionths: `SPEED_UNIT` is the recorded pace,
    /// twice that halves every delay, and 0 replays without any delay.
    pub speed: u64,
    /// How long to wait before the first recording starts by itself.
    pub record_delay: Option<Span>,
    /// After how long a recording stops by itself.
    pub record_length: Option<Span>,
}

impl Default for Options {
    /// The recorded pace, no delayed start and no limit.
    fn default() -> (options: Options)
        ensures
            options == (Options { speed: SPEED_UNIT, record_delay: None, record_length: None }),
    {
        Options { speed: SPEED_UNIT, record_delay: None, record_length: None }
    }
}

impl Options {
    /// The options for the given settings: the speed as given, or 0 where an
    /// instant replay is asked for, which overrides it.
    pub fn from_settings(
        speed: u64,
        instant: bool,
        record_delay: Option<Span>,
        record_length: Option<Span>,
    ) -> (options: Options)
        ensures
            options == (Options {
                speed: if instant {
                    0
                } else {
                    speed
                },
                record_delay,
                record_length,
            }),
    {
        let mut options = Options::default();
        options.speed = speed;
        options.record_delay = record_delay;
        options.record_length = record_length;
        if instant {
            options.speed = 0;
        }
        options
    }
}

/// What the user is told.
#[derive(Clone, Copy, Debug, PartialEq, Eq, Structural)]
pub enum Notice {
    RecordingStarted,
    RecordingStopped,
    ReplayBegins,
    /// A key event whose code no record can carry was passed over.
    UnsupportedKey,
    /// A button event that the device cannot reproduce was passed over.
    UnsupportedButton,
    /// An event of no known kind was passed over.
    SkippedEvent,
}

/// One thing for the owner of the device and of the physical source to do.
#[derive(Clone, Copy, Debug, PartialEq, Eq, Structural)]
pub enum Command {
    /// Tell the user.
    Report(Notice),
    /// Pause the physical source.
    SuspendSource,
    /// Let the physical source go on.
    ResumeSource,
    /// Wait this many milliseconds.
    Sleep(u64),
    /// Write the record to the device.
    Write(input_event),
}

/// What a replay carries from one event to the next.
#[derive(Clone, Copy, Debug, PartialEq, Eq, Structural)]
pub struct ReplayState {
    /// The time of the event before, in milliseconds; 0 before the first.
    pub prev_time: u64,
    /// Horizontal motion owed to the device, in parts of a unit.
    pub err_x: i64,
    /// Vertical motion owed to the device, in parts of a unit.
    pub err_y: i64,
}

/// What one motion event does on one axis.
#[derive(Clone, Copy, Debug, PartialEq, Eq, Structural)]
pub struct AxisStep {
    /// The units emitted for the event itself.
    pub whole: i32,
    /// The unit emitted to catch up: 1, -1, or 0 for none.
    pub extra: i32,
    /// The motion owed afterwards.
    pub err: i64,
}

impl ReplayState {
    /// The state before the first event.
    pub open spec fn initial() -> ReplayState {
        ReplayState { prev_time: 0, err_x: 0, err_y: 0 }
    }

    /// The state before the first event: no time yet and nothing owed.
    pub fn new() -> (state: ReplayState)
        ensures
            state == ReplayState::initial(),
            state.wf(),
    {
        ReplayState { prev_time: 0, err_x: 0, err_y: 0 }
    }

    /// The owed motion is at most one unit either way.
    pub open spec fn wf(self) -> bool {
        &&& -MOTION_SCALE <= self.err_x <= MOTION_SCALE
        &&& -MOTION_SCALE <= self.err_y <= MOTION_SCALE
    }
}

/// The whole units in `delta`, rounded toward zero.
pub open spec fn whole_units(delta: i64) -> int {
    if delta >= 0 {
        (delta as int) / (MOTION_SCALE as int)
    } else {
        -((-(delta as int)) / (MOTION_SCALE as int))
    }
}

/// What `delta` holds beyond its whole units; it has the sign of `delta`.
pub open spec fn fraction(delta: i64) -> int {
    delta - whole_units(delta) * MOTION_SCALE
}

/// `v` brought into the range of a record's value.
pub open spec fn saturate(v: int) -> i32 {
    if v > i32::MAX {
        i32::MAX
    } else if v < i32::MIN {
        i32::MIN
    } else {
        v as i32
    }
}

/// The correction of fractional motion on one axis: the whole units go out,
/// the fraction is added to what is owed, and once more than a unit is owed,
/// one unit goes out after them.
pub open spec fn axis_step(err: i64, delta: i64) -> AxisStep {
    let owed = err + fraction(delta);
    if owed > MOTION_SCALE {
        AxisStep { whole: saturate(whole_units(delta)), extra: 1, err: (owed - MOTION_SCALE) as i64 }
    } else if owed < -MOTION_SCALE {
        AxisStep {
            whole: saturate(whole_units(delta)),
            extra: -1i32,
            err: (owed + MOTION_SCALE) as i64,
        }
    } else {
        AxisStep { whole: saturate(whole_units(delta)), extra: 0, err: owed as i64 }
    }
}

/// The time of an event in milliseconds: its own where it has one, else that
/// of the event before.
pub open spec fn event_time(prev: u64, e: Event) -> u64 {
    match e {
        Event::KeyEvent { timestamp_usec, .. } => timestamp_usec / 1000,
        Event::PointerMotion { timestamp_usec, .. } => timestamp_usec / 1000,
        _ => prev,
    }
}

/// Whether a delay stands before an event: never at speed 0, before the first
/// timed event, or where time stood still or ran backwards.
pub open spec fn delay_due(speed: u64, prev: u64, time: u64) -> bool {
    speed != 0 && prev != 0 && prev < time
}

/// The delay for a recorded gap: the gap divided by the speed, rounded down
/// to whole milliseconds, and no more than a command can hold.
pub open spec fn scaled_delay(gap: u64, speed: u64) -> u64 {
    let exact = (gap * SPEED_UNIT) / (speed as int);
    if exact > u64::MAX {
        u64::MAX
    } else {
        exact as u64
    }
}

/// The commands for the delay before an event.
pub open spec fn delay_commands(speed: u64, prev: u64, time: u64) -> Seq<Command> {
    if delay_due(speed, prev, time) {
        seq![Command::Sleep(scaled_delay((time - prev) as u64, speed))]
    } else {
        Seq::empty()
    }
}

/// Whether the device can reproduce a button event.
pub open spec fn button_supported(button: u32, seat_count: u32) -> bool {
    (button == BTN_LEFT || button == BTN_RIGHT) && seat_count <= 1
}

/// The commands for the catch-up unit of one axis, if there is one.
pub open spec fn catch_up(axis: u16, step: AxisStep) -> Seq<Command> {
    if step.extra != 0 {
        seq![Command::Write(record(EventType::EV_REL, axis, step.extra))]
    } else {
        Seq::empty()
    }
}

/// The value of a key record: 1 for a key that went down, 0 for one that came
/// up.
pub open spec fn key_value(state: KeyState) -> i32 {
    if state == KeyState::Pressed {
        1
    } else {
        0
    }
}

/// The commands that reproduce one event, without its delay and its sync. A
/// key event gives the record with the captured code itself.
pub open spec fn dispatch(state: ReplayState, e: Event) -> Seq<Command> {
    match e {
        Event::KeyEvent { code, state: key_state, .. } => match Key::spec_from_code(code) {
            Some(key) => seq![Command::Write(record(EventType::EV_KEY, key.code, key_value(key_state)))],
            None => seq![Command::Report(Notice::UnsupportedKey)],
        },
        Event::PointerMotion { dx, dy, .. } => {
            let x = axis_step(state.err_x, dx);
            let y = axis_step(state.err_y, dy);
            seq![
                Command::Write(record(EventType::EV_REL, AXIS_X, x.whole)),
                Command::Write(record(EventType::EV_REL, AXIS_Y, y.whole)),
            ] + catch_up(AXIS_X, x) + catch_up(AXIS_Y, y)
        },
        Event::PointerButton { button, seat_count } => if button_supported(button, seat_count) {
            seq![Command::Write(record(EventType::EV_KEY, button as u16, seat_count as i32))]
        } else {
            seq![Command::Report(Notice::UnsupportedButton)]
        },
        Event::Other => seq![Command::Report(Notice::SkippedEvent)],
    }
}

/// The frame of one event: its delay, what reproduces it, and one sync.
pub open spec fn frame(state: ReplayState, speed: u64, e: Event) -> Seq<Command> {
    delay_commands(speed, state.prev_time, event_time(state.prev_time, e)) + dispatch(state, e)
        + seq![Command::Write(record(EventType::EV_SYN, 0, 0))]
}

/// The state after an event.
pub open spec fn advance(state: ReplayState, e: Event) -> ReplayState {
    match e {
        Event::PointerMotion { dx, dy, .. } => ReplayState {
            prev_time: event_time(state.prev_time, e),
            err_x: axis_step(state.err_x, dx).err,
            err_y: axis_step(state.err_y, dy).err,
        },
        _ => ReplayState { prev_time: event_time(state.prev_time, e), ..state },
    }
}

/// The state after all of `events`.
pub open spec fn state_after(events: Seq<Event>) -> ReplayState
    decreases events.len(),
{
    if events.len() == 0 {
        ReplayState::initial()
    } else {
        advance(state_after(events.drop_last()), events.last())
    }
}

/// The frames of `events`, one after the other.
pub open spec fn frames(speed: u64, events: Seq<Event>) -> Seq<Command>
    decreases events.len(),
{
    if events.len() == 0 {
        Seq::empty()
    } else {
        frames(speed, events.drop_last()) + frame(
            state_after(events.drop_last()),
            speed,
            events.last(),
        )
    }
}

/// A whole replay: the notice that it begins, then the frames.
pub open spec fn replay_script(speed: u64, events: Seq<Event>) -> Seq<Command> {
    seq![Command::Report(Notice::ReplayBegins)] + frames(speed, events)
}

/// Each event leaves the state well-formed: no more than a unit is ever owed.
pub proof fn advance_keeps_wf(state: ReplayState, e: Event)
    requires
        state.wf(),
    ensures
        advance(state, e).wf(),
{
}

/// After any sequence of events no more than a unit is owed on either axis.
pub proof fn state_after_wf(events: Seq<Event>)
    ensures
        state_after(events).wf(),
    decreases events.len(),
{
    if events.len() > 0 {
        state_after_wf(events.drop_last());
        advance_keeps_wf(state_after(events.drop_last()), events.last());
    }
}

/// Corrects the motion of one event on one axis.
pub fn correct_axis(err: i64, delta: i64) -> (step: AxisStep)
    requires
        -MOTION_SCALE <= err <= MOTION_SCALE,
    ensures
        step == axis_step(err, delta),
        -MOTION_SCALE <= step.err <= MOTION_SCALE,
        step.extra == 0 || step.extra == 1 || step.extra == -1,
        i32::MIN <= whole_units(delta) <= i32::MAX ==> (step.whole + step.extra) * MOTION_SCALE
            + step.err == err + delta,
{
    let scale: u64 = 1_000_000;
    let magnitude: u64 = if delta >= 0 {
        delta as u64
    } else {
        (-(delta as i128)) as u64
    };
    let whole_mag: u64 = magnitude / scale;
    let frac_mag: u64 = magnitude % scale;
    let whole: i32 = if delta >= 0 {
        if whole_mag > 2147483647 {
            i32::MAX
        } else {
            whole_mag as i32
        }
    } else {
        if whole_mag > 2147483648 {
            i32::MIN
        } else {
            (-(whole_mag as i64)) as i32
        }
    };
    let frac: i64 = if delta >= 0 {
        frac_mag as i64
    } else {
        -(frac_mag as i64)
    };
    let owed: i64 = err + frac;
    if owed > MOTION_SCALE {
        AxisStep { whole, extra: 1, err: owed - MOTION_SCALE }
    } else if owed < -MOTION_SCALE {
        AxisStep { whole, extra: -1, err: owed + MOTION_SCALE }
    } else {
        AxisStep { whole, extra: 0, err: owed }
    }
}

/// The time of `event` in milliseconds, after an event at `prev`.
pub fn time_of(prev: u64, event: &Event) -> (time: u64)
    ensures
        time == event_time(prev, *event),
{
    match event {
        Event::KeyEvent { timestamp_usec, .. } => *timestamp_usec / 1000,
        Event::PointerMotion { timestamp_usec, .. } => *timestamp_usec / 1000,
        _ => prev,
    }
}

/// The delay before an event at `time` that follows one at `prev`: `None`
/// where no delay is due, else the gap scaled by the speed.
pub fn delay_before(speed: u64, prev: u64, time: u64) -> (delay: Option<u64>)
    ensures
        delay.is_some() == delay_due(speed, prev, time),
        delay_due(speed, prev, time) ==> delay == Some(scaled_delay((time - prev) as u64, speed)),
{
    if speed != 0 && prev != 0 && prev < time {
        let gap: u64 = time - prev;
        let exact: u128 = (gap as u128 * 1_000_000) / (speed as u128);
        if exact > 0xffff_ffff_ffff_ffff {
            Some(u64::MAX)
        } else {
            Some(exact as u64)
        }
    } else {
        None
    }
}

/// Replays one event: appends its frame to `script` and moves `state` on.
pub fn replay_step(
    state: &mut ReplayState,
    speed: u64,
    event: &Event,
    uinput: &mut UInput,
    script: &mut Vec<Command>,
)
    requires
        old(state).wf(),
        old(uinput).stage() == Stage::Created,
    ensures
        *final(state) == advance(*old(state), *event),
        final(state).wf(),
        final(script)@ == old(script)@ + frame(*old(state), speed, *event),
        final(uinput).emitted(*old(uinput), record(EventType::EV_SYN, 0, 0)),
{
    let ghost before = script@;
    let time = time_of(state.prev_time, event);
    match delay_before(speed, state.prev_time, time) {
        Some(millis) => {
            script.push(Command::Sleep(millis));
        },
        None => {},
    }
    assert(script@ =~= before + delay_commands(speed, state.prev_time, time));
    let ghost delayed = script@;
    match event {
        Event::KeyEvent { code, state: key_state, .. } => {
            match Key::from_code(*code) {
                Some(key) => {
                    let rec = match key_state {
                        KeyState::Pressed => uinput.key_press(key),
                        KeyState::Released => uinput.key_release(key),
                    };
                    script.push(Command::Write(rec));
                },
                None => {
                    script.push(Command::Report(Notice::UnsupportedKey));
                },
            }
        },
        Event::PointerMotion { dx, dy, .. } => {
            let x = correct_axis(state.err_x, *dx);
            let y = correct_axis(state.err_y, *dy);
            let rec_x = uinput.rel_x(x.whole);
            script.push(Command::Write(rec_x));
            let rec_y = uinput.rel_y(y.whole);
            script.push(Command::Write(rec_y));
            if x.extra != 0 {
                let more_x = uinput.rel_x(x.extra);
                script.push(Command::Write(more_x));
            }
            if y.extra != 0 {
                let more_y = uinput.rel_y(y.extra);
                script.push(Command::Write(more_y));
            }
            state.err_x = x.err;
            state.err_y = y.err;
        },
        Event::PointerButton { button, seat_count } => {
            if *button == 0x110 && *seat_count == 0 {
                let rec = uinput.btn_left_release();
                script.push(Command::Write(rec));
            } else if *button == 0x110 && *seat_count == 1 {
                let rec = uinput.btn_left_press();
                script.push(Command::Write(rec));
            } else if *button == 0x111 && *seat_count == 0 {
                let rec = uinput.btn_right_release();
                script.push(Command::Write(rec));
            } else if *button == 0x111 && *seat_count == 1 {
                let rec = uinput.btn_right_press();
                script.push(Command::Write(rec));
            } else {
                script.push(Command::Report(Notice::UnsupportedButton));
            }
        },
        Event::Other => {
            script.push(Command::Report(Notice::SkippedEvent));
        },
    }
    assert(script@ =~= delayed + dispatch(*old(state), *event));
    let rec = uinput.sync();
    script.push(Command::Write(rec));
    state.prev_time = time;
    assert(script@ =~= before + frame(*old(state), speed, *event));
}

/// Replays `events` in order: the script starts with the notice that a replay
/// begins and holds one frame for each event, each closed by its sync.
pub fn replay_events(options: &Options, events: &Vec<Event>, uinput: &mut UInput) -> (script: Vec<
    Command,
>)
    requires
        old(uinput).stage() == Stage::Created,
    ensures
        script@ == replay_script(options.speed, events@),
        final(uinput).descriptor() == old(uinput).descriptor(),
        final(uinput).stage() == Stage::Created,
        final(uinput).last() == if events@.len() == 0 {
            old(uinput).last()
        } else {
            record(EventType::EV_SYN, 0, 0)
        },
{
    let mut script: Vec<Command> = Vec::new();
    script.push(Command::Report(Notice::ReplayBegins));
    let mut state = ReplayState::new();
    let mut i: usize = 0;
    assert(events@.take(0) =~= Seq::<Event>::empty());
    while i < events.len()
        invariant
            i <= events@.len(),
            state.wf(),
            state == state_after(events@.take(i as int)),
            script@ == replay_script(options.speed, events@.take(i as int)),
            uinput.descriptor() == old(uinput).descriptor(),
            uinput.stage() == Stage::Created,
            uinput.last() == if i == 0 {
                old(uinput).last()
            } else {
                record(EventType::EV_SYN, 0, 0)
            },
        decreases events@.len() - i,
    {
        proof {
            assert(events@.take(i + 1).drop_last() =~= events@.take(i as int));
            assert(events@.take(i + 1).last() == events@[i as int]);
        }
        replay_step(&mut state, options.speed, &events[i], uinput, &mut script);
        assert(script@ =~= replay_script(options.speed, events@.take(i + 1)));
        i += 1;
    }
    assert(events@.take(i as int) =~= events@);
    script
}

/// The key-class records among the commands, in order.
pub open spec fn key_trace(s: Seq<Command>) -> Seq<input_event>
    decreases s.len(),
{
    if s.len() == 0 {
        Seq::empty()
    } else {
        match s.last() {
            Command::Write(r) => if r.kind == EventType::EV_KEY.spec_code() {
                key_trace(s.drop_last()).push(r)
            } else {
                key_trace(s.drop_last())
            },
            _ => key_trace(s.drop_last()),
        }
    }
}

/// The key and button records that the captured events call for, in capture
/// order: for each key event the record with its own code and state, and one
/// for each button event that the device can reproduce. Only a key code that
/// no record can carry, one above `u16::MAX`, gives none.
pub open spec fn captured_keys(events: Seq<Event>) -> Seq<input_event>
    decreases events.len(),
{
    if events.len() == 0 {
        Seq::empty()
    } else {
        match events.last() {
            Event::KeyEvent { code, state, .. } => if code <= u16::MAX {
                captured_keys(events.drop_last()).push(
                    record(EventType::EV_KEY, code as u16, key_value(state)),
                )
            } else {
                captured_keys(events.drop_last())
            },
            Event::PointerButton { button, seat_count } => if button_supported(
                button,
                seat_count,
            ) {
                captured_keys(events.drop_last()).push(
                    record(EventType::EV_KEY, button as u16, seat_count as i32),
                )
            } else {
                captured_keys(events.drop_last())
            },
            _ => captured_keys(events.drop_last()),
        }
    }
}

/// The sum of the values written for relative motion on `axis`.
pub open spec fn rel_total(s: Seq<Command>, axis: u16) -> int
    decreases s.len(),
{
    if s.len() == 0 {
        0
    } else {
        match s.last() {
            Command::Write(r) => if r.kind == EventType::EV_REL.spec_code() && r.code == axis {
                rel_total(s.drop_last(), axis) + r.value
            } else {
                rel_total(s.drop_last(), axis)
            },
            _ => rel_total(s.drop_last(), axis),
        }
    }
}

/// The motion that `e` reports on `axis`, in parts of a unit.
pub open spec fn axis_delta(e: Event, axis: u16) -> i64 {
    match e {
        Event::PointerMotion { dx, dy, .. } => if axis == AXIS_X {
            dx
        } else {
            dy
        },
        _ => 0,
    }
}

/// The sum of the motion captured on `axis`, in parts of a unit.
pub open spec fn delta_total(events: Seq<Event>, axis: u16) -> int
    decreases events.len(),
{
    if events.len() == 0 {
        0
    } else {
        delta_total(events.drop_last(), axis) + axis_delta(events.last(), axis)
    }
}

/// Whether the whole units of every delta captured on `axis` fit a record's
/// value.
pub open spec fn deltas_fit(events: Seq<Event>, axis: u16) -> bool {
    forall|i: int|
        0 <= i < events.len() ==> i32::MIN <= #[trigger] whole_units(axis_delta(events[i], axis))
            <= i32::MAX
}

/// What is owed on `axis` in `state`.
pub open spec fn owed(state: ReplayState, axis: u16) -> i64 {
    if axis == AXIS_X {
        state.err_x
    } else {
        state.err_y
    }
}

/// The key records of two scripts in a row are those of the first, then
/// those of the second.
pub proof fn key_trace_concat(a: Seq<Command>, b: Seq<Command>)
    ensures
        key_trace(a + b) == key_trace(a) + key_trace(b),
    decreases b.len(),
{
    if b.len() == 0 {
        assert(a + b =~= a);
        assert(key_trace(a) + key_trace(b) =~= key_trace(a));
    } else {
        assert((a + b).drop_last() =~= a + b.drop_last());
        assert((a + b).last() == b.last());
        key_trace_concat(a, b.drop_last());
        assert(key_trace(a + b) =~= key_trace(a) + key_trace(b));
    }
}

/// The motion written by two scripts in a row is the sum of both.
pub proof fn rel_total_concat(a: Seq<Command>, b: Seq<Command>, axis: u16)
    ensures
        rel_total(a + b, axis) == rel_total(a, axis) + rel_total(b, axis),
    decreases b.len(),
{
    if b.len() == 0 {
        assert(a + b =~= a);
    } else {
        assert((a + b).drop_last() =~= a + b.drop_last());
        assert((a + b).last() == b.last());
        rel_total_concat(a, b.drop_last(), axis);
    }
}

proof fn traces_of_one(c: Command, axis: u16)
    ensures
        key_trace(seq![c]) == match c {
            Command::Write(r) => if r.kind == EventType::EV_KEY.spec_code() {
                seq![r]
            } else {
                Seq::empty()
            },
            _ => Seq::empty(),
        },
        rel_total(seq![c], axis) == match c {
            Command::Write(r) => if r.kind == EventType::EV_REL.spec_code() && r.code == axis {
                r.value as int
            } else {
                0
            },
            _ => 0,
        },
{
    let s = seq![c];
    assert(s.drop_last() =~= Seq::<Command>::empty());
    assert(s.last() == c);
    assert(key_trace(s.drop_last()) =~= Seq::<input_event>::empty());
    assert(rel_total(s.drop_last(), axis) == 0);
    match c {
        Command::Write(r) => {
            if r.kind == EventType::EV_KEY.spec_code() {
                assert(key_trace(s) =~= seq![r]);
            }
        },
        _ => {},
    }
}

proof fn traces_of_delay(speed: u64, prev: u64, time: u64, axis: u16)
    ensures
        key_trace(delay_commands(speed, prev, time)) == Seq::<input_event>::empty(),
        rel_total(delay_commands(speed, prev, time), axis) == 0,
{
    if delay_due(speed, prev, time) {
        traces_of_one(Command::Sleep(scaled_delay((time - prev) as u64, speed)), axis);
    }
}

proof fn traces_of_catch_up(on: u16, step: AxisStep, axis: u16)
    requires
        on == AXIS_X || on == AXIS_Y,
    ensures
        key_trace(catch_up(on, step)) == Seq::<input_event>::empty(),
        rel_total(catch_up(on, step), axis) == if on == axis {
            step.extra as int
        } else {
            0
        },
{
    if step.extra != 0 {
        traces_of_one(Command::Write(record(EventType::EV_REL, on, step.extra)), axis);
    }
}

proof fn traces_of_dispatch(state: ReplayState, e: Event, axis: u16)
    requires
        axis == AXIS_X || axis == AXIS_Y,
    ensures
        key_trace(dispatch(state, e)) == captured_keys(seq![e]),
        rel_total(dispatch(state, e), axis) == match e {
            Event::PointerMotion { .. } => {
                let step = axis_step(owed(state, axis), axis_delta(e, axis));
                step.whole + step.extra
            },
            _ => 0,
        },
{
    let one = seq![e];
    assert(one.drop_last() =~= Seq::<Event>::empty());
    assert(one.last() == e);
    assert(captured_keys(one.drop_last()) =~= Seq::<input_event>::empty());
    match e {
        Event::PointerMotion { dx, dy, .. } => {
            let x = axis_step(state.err_x, dx);
            let y = axis_step(state.err_y, dy);
            let wx = Command::Write(record(EventType::EV_REL, AXIS_X, x.whole));
            let wy = Command::Write(record(EventType::EV_REL, AXIS_Y, y.whole));
            let head = seq![wx, wy];
            assert(head =~= seq![wx] + seq![wy]);
            traces_of_one(wx, axis);
            traces_of_one(wy, axis);
            key_trace_concat(seq![wx], seq![wy]);
            rel_total_concat(seq![wx], seq![wy], axis);
            traces_of_catch_up(AXIS_X, x, axis);
            traces_of_catch_up(AXIS_Y, y, axis);
            key_trace_concat(head, catch_up(AXIS_X, x));
            rel_total_concat(head, catch_up(AXIS_X, x), axis);
            key_trace_concat(head + catch_up(AXIS_X, x), catch_up(AXIS_Y, y));
            rel_total_concat(head + catch_up(AXIS_X, x), catch_up(AXIS_Y, y), axis);
            assert(key_trace(dispatch(state, e)) =~= Seq::<input_event>::empty());
        },
        _ => {
            traces_of_one(dispatch(state, e)[0], axis);
            assert(dispatch(state, e) =~= seq![dispatch(state, e)[0]]);
            assert(key_trace(dispatch(state, e)) =~= captured_keys(one));
        },
    }
}

proof fn traces_of_frame(state: ReplayState, speed: u64, e: Event, axis: u16)
    requires
        axis == AXIS_X || axis == AXIS_Y,
    ensures
        key_trace(frame(state, speed, e)) == captured_keys(seq![e]),
        rel_total(frame(state, speed, e), axis) == rel_total(dispatch(state, e), axis),
{
    let delay = delay_commands(speed, state.prev_time, event_time(state.prev_time, e));
    let sync = Command::Write(record(EventType::EV_SYN, 0, 0));
    traces_of_delay(speed, state.prev_time, event_time(state.prev_time, e), axis);
    traces_of_dispatch(state, e, axis);
    traces_of_one(sync, axis);
    key_trace_concat(delay, dispatch(state, e));
    rel_total_concat(delay, dispatch(state, e), axis);
    key_trace_concat(delay + dispatch(state, e), seq![sync]);
    rel_total_concat(delay + dispatch(state, e), seq![sync], axis);
    assert(key_trace(frame(state, speed, e)) =~= captured_keys(seq![e]));
}

/// One step of the correction loses nothing: where the whole units fit a
/// record's value, what is emitted and what is owed afterwards add up to what
/// was owed before and the delta. And no more than a unit is owed afterwards.
pub proof fn axis_step_conserves(err: i64, delta: i64)
    requires
        -MOTION_SCALE <= err <= MOTION_SCALE,
    ensures
        -MOTION_SCALE <= axis_step(err, delta).err <= MOTION_SCALE,
        i32::MIN <= whole_units(delta) <= i32::MAX ==> (axis_step(err, delta).whole + axis_step(
            err,
            delta,
        ).extra) * MOTION_SCALE + axis_step(err, delta).err == err + delta,
{
}

/// A key event is replayed with the code it was captured with: where a
/// record can carry the code, the one record written for the event carries
/// exactly that code and the event's state.
pub proof fn key_is_replayed_with_its_code(state: ReplayState, code: u32, key_state: KeyState, at: u64)
    requires
        code <= u16::MAX,
    ensures
        dispatch(state, Event::KeyEvent { code, state: key_state, timestamp_usec: at }) == seq![
            Command::Write(record(EventType::EV_KEY, code as u16, key_value(key_state))),
        ],
{
}

/// Replaying a capture writes the key and button records in exactly the order
/// of capture: each key event and each reproducible button event gives its
/// one record, nothing else gives a key-class record, and none changes place.
pub proof fn replay_keeps_key_order(speed: u64, events: Seq<Event>)
    ensures
        key_trace(frames(speed, events)) == captured_keys(events),
        key_trace(replay_script(speed, events)) == captured_keys(events),
    decreases events.len(),
{
    if events.len() == 0 {
        assert(key_trace(frames(speed, events)) =~= captured_keys(events));
    } else {
        let before = events.drop_last();
        replay_keeps_key_order(speed, before);
        traces_of_frame(state_after(before), speed, events.last(), AXIS_X);
        key_trace_concat(frames(speed, before), frame(state_after(before), speed, events.last()));
        let one = seq![events.last()];
        assert(one.drop_last() =~= Seq::<Event>::empty());
        assert(captured_keys(one.drop_last()) =~= Seq::<input_event>::empty());
        assert(key_trace(frames(speed, events)) =~= captured_keys(events));
    }
    let head = Command::Report(Notice::ReplayBegins);
    traces_of_one(head, AXIS_X);
    key_trace_concat(seq![head], frames(speed, events));
    assert(key_trace(replay_script(speed, events)) =~= captured_keys(events));
}

/// No motion is lost to rounding: what is owed on an axis never exceeds one
/// unit either way, and after any capture whose deltas on that axis fit a
/// record's value, the units written there and what is still owed add up to
/// the motion captured.
pub proof fn replay_conserves_motion(speed: u64, events: Seq<Event>, axis: u16)
    requires
        axis == AXIS_X || axis == AXIS_Y,
    ensures
        -MOTION_SCALE <= owed(state_after(events), axis) <= MOTION_SCALE,
        deltas_fit(events, axis) ==> rel_total(replay_script(speed, events), axis) * MOTION_SCALE
            + owed(state_after(events), axis) == delta_total(events, axis),
        deltas_fit(events, axis) ==> rel_total(frames(speed, events), axis) * MOTION_SCALE + owed(
            state_after(events),
            axis,
        ) == delta_total(events, axis),
    decreases events.len(),
{
    state_after_wf(events);
    if events.len() > 0 {
        let before = events.drop_last();
        let e = events.last();
        let state = state_after(before);
        replay_conserves_motion(speed, before, axis);
        state_after_wf(before);
        traces_of_frame(state, speed, e, axis);
        traces_of_dispatch(state, e, axis);
        rel_total_concat(frames(speed, before), frame(state, speed, e), axis);
        axis_step_conserves(owed(state, axis), axis_delta(e, axis));
        if deltas_fit(events, axis) {
            assert(deltas_fit(before, axis)) by {
                assert forall|i: int| 0 <= i < before.len() implies i32::MIN
                    <= #[trigger] whole_units(axis_delta(before[i], axis)) <= i32::MAX by {
                    assert(before[i] == events[i]);
                }
            }
            assert(i32::MIN <= whole_units(axis_delta(events[events.len() - 1], axis)) <= i32::MAX);
        }
    }
    let head = Command::Report(Notice::ReplayBegins);
    traces_of_one(head, axis);
    rel_total_concat(seq![head], frames(speed, events), axis);
}

/// Each frame holds exactly one sync, and ends with it.
pub proof fn frame_ends_with_its_sync(state: ReplayState, speed: u64, e: Event)
    ensures
        frame(state, speed, e).len() >= 2,
        frame(state, speed, e).last() == Command::Write(record(EventType::EV_SYN, 0, 0)),
        forall|i: int|
            0 <= i < frame(state, speed, e).len() - 1 ==> #[trigger] frame(state, speed, e)[i]
                != Command::Write(record(EventType::EV_SYN, 0, 0)),
{
}

/// At speed 0 a replay never waits, whatever the recorded gaps.
pub proof fn instant_replay_never_sleeps(events: Seq<Event>)
    ensures
        forall|i: int|
            0 <= i < frames(0, events).len() ==> !(#[trigger] frames(0, events)[i] is Sleep),
        forall|i: int|
            0 <= i < replay_script(0, events).len() ==> !(#[trigger] replay_script(
                0,
                events,
            )[i] is Sleep),
    decreases events.len(),
{
    if events.len() > 0 {
        instant_replay_never_sleeps(events.drop_last());
    }
}

/// A replay leaves the physical source alone: its script neither suspends nor
/// resumes it.
pub proof fn replay_leaves_source_alone(speed: u64, events: Seq<Event>)
    ensures
        forall|i: int|
            0 <= i < frames(speed, events).len() ==> !(#[trigger] frames(speed, events)[i]
                is SuspendSource) && !(frames(speed, events)[i] is ResumeSource),
        forall|i: int|
            0 <= i < replay_script(speed, events).len() ==> !(#[trigger] replay_script(
                speed,
                events,
            )[i] is SuspendSource) && !(replay_script(speed, events)[i] is ResumeSource),
    decreases events.len(),
{
    if events.len() > 0 {
        replay_leaves_source_alone(speed, events.drop_last());
    }
}

} // verus!
