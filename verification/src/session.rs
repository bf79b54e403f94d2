//! The session: idle or recording, moved by two trigger keys and by the
//! clock, and replaying on demand with the physical source held still.
use vstd::prelude::*;

use crate::clock::{has_elapsed, time_has_elapsed_at, wall_clock, Timestamp};
use crate::event::{Event, EventStore, KeyState};
use crate::replay::{
    replay_events, replay_leaves_source_alone, replay_script, Command, Notice, Options,
};
use crate::uinput::{Directive, Key, Stage, UInput};

verus! {

/// The two keys that steer a session instead of being recorded.
#[derive(Clone, Copy, Debug, PartialEq, Eq, Structural)]
pub struct Triggers {
    /// Its release starts a recording, or stops the one under way.
    pub record: Key,
    /// Its release replays what was recorded.
    pub replay: Key,
}

/// What a session is doing between two events. A replay is over before the
/// next event is looked at, so it is no mode of its own.
#[derive(Clone, Copy, Debug, PartialEq, Eq, Structural)]
pub enum Mode {
    Idle,
    Recording,
}

/// Which trigger a key event belongs to.
#[derive(Clone, Copy, Debug, PartialEq, Eq, Structural)]
pub enum Trigger {
    Record,
    Replay,
}

/// What a session holds, as contracts see it.
pub struct SessionModel {
    pub mode: Mode,
    pub store: Seq<Event>,
    pub started: Timestamp,
}

/// A recording session with its store and its device.
pub struct Session {
    options: Options,
    triggers: Triggers,
    mode: Mode,
    store: EventStore,
    started: Timestamp,
    uinput: UInput,
}

/// The trigger that `e` belongs to, if it is an event of a trigger key: a key
/// event whose code is that key's code, as a number. Where both triggers name
/// one key, it records.
pub open spec fn trigger_of(triggers: Triggers, e: Event) -> Option<Trigger> {
    match e {
        Event::KeyEvent { code, .. } => if code as int == triggers.record.code as int {
            Some(Trigger::Record)
        } else if code as int == triggers.replay.code as int {
            Some(Trigger::Replay)
        } else {
            None
        },
        _ => None,
    }
}

/// Whether `e` is the release of a key.
pub open spec fn is_release(e: Event) -> bool {
    match e {
        Event::KeyEvent { state, .. } => state == KeyState::Released,
        _ => false,
    }
}

/// The notice that a recording stops, where one is under way.
pub open spec fn stop_commands(mode: Mode) -> Seq<Command> {
    if mode == Mode::Recording {
        seq![Command::Report(Notice::RecordingStopped)]
    } else {
        Seq::empty()
    }
}

/// The session after event `e` arrives at time `now`.
pub open spec fn next_model(triggers: Triggers, m: SessionModel, e: Event, now: Timestamp)
    -> SessionModel {
    match trigger_of(triggers, e) {
        Some(Trigger::Record) => if !is_release(e) {
            m
        } else if m.mode == Mode::Recording {
            SessionModel { mode: Mode::Idle, ..m }
        } else {
            SessionModel { mode: Mode::Recording, store: Seq::empty(), started: now }
        },
        Some(Trigger::Replay) => if is_release(e) {
            SessionModel { mode: Mode::Idle, ..m }
        } else {
            m
        },
        None => if m.mode == Mode::Recording {
            SessionModel { store: m.store.push(e), ..m }
        } else {
            m
        },
    }
}

/// What is to be done when event `e` arrives.
pub open spec fn commands_for(options: Options, triggers: Triggers, m: SessionModel, e: Event)
    -> Seq<Command> {
    match trigger_of(triggers, e) {
        Some(Trigger::Record) => if !is_release(e) {
            Seq::empty()
        } else if m.mode == Mode::Recording {
            seq![Command::Report(Notice::RecordingStopped)]
        } else {
            seq![Command::Report(Notice::RecordingStarted)]
        },
        Some(Trigger::Replay) => if is_release(e) {
            stop_commands(m.mode) + seq![Command::SuspendSource] + replay_script(
                options.speed,
                m.store,
            ) + seq![Command::ResumeSource]
        } else {
            Seq::empty()
        },
        None => Seq::empty(),
    }
}

/// Whether a recording has run its configured length at `now`.
pub open spec fn length_reached(options: Options, m: SessionModel, now: Timestamp) -> bool {
    m.mode == Mode::Recording && options.record_length.is_some() && has_elapsed(
        m.started,
        now,
        options.record_length.unwrap(),
    )
}

/// The session after the clock is looked at, at `now`.
pub open spec fn polled_model(options: Options, m: SessionModel, now: Timestamp) -> SessionModel {
    if length_reached(options, m, now) {
        SessionModel { mode: Mode::Idle, ..m }
    } else {
        m
    }
}

/// What is to be done after the clock is looked at, at `now`.
pub open spec fn commands_at_poll(options: Options, m: SessionModel, now: Timestamp) -> Seq<
    Command,
> {
    if length_reached(options, m, now) {
        seq![Command::Report(Notice::RecordingStopped)]
    } else {
        Seq::empty()
    }
}

/// The session after the start-up step at `now`: recording from an empty
/// store where a delayed start is configured, unchanged where none is.
pub open spec fn begun_model(options: Options, m: SessionModel, now: Timestamp) -> SessionModel {
    if options.record_delay.is_some() {
        SessionModel { mode: Mode::Recording, store: Seq::empty(), started: now }
    } else {
        m
    }
}

/// What is to be done after the start-up step.
pub open spec fn commands_at_start(options: Options) -> Seq<Command> {
    if options.record_delay.is_some() {
        seq![Command::Report(Notice::RecordingStarted)]
    } else {
        Seq::empty()
    }
}

/// The trigger that `event` belongs to, if any.
pub fn classify(triggers: &Triggers, event: &Event) -> (trigger: Option<Trigger>)
    ensures
        trigger == trigger_of(*triggers, *event),
{
    match event {
        Event::KeyEvent { code, .. } => {
            if *code == triggers.record.code as u32 {
                Some(Trigger::Record)
            } else if *code == triggers.replay.code as u32 {
                Some(Trigger::Replay)
            } else {
                None
            }
        },
        _ => None,
    }
}

/// Whether `event` is the release of a key.
pub fn released(event: &Event) -> (r: bool)
    ensures
        r == is_release(*event),
{
    match event {
        Event::KeyEvent { state, .. } => *state == KeyState::Released,
        _ => false,
    }
}

impl Session {
    /// The session's mode, store and start of recording.
    pub closed spec fn model(self) -> SessionModel {
        SessionModel { mode: self.mode, store: self.store@, started: self.started }
    }

    /// The configuration that the session was made with.
    pub closed spec fn options(self) -> Options {
        self.options
    }

    /// The trigger keys that the session was made with.
    pub closed spec fn triggers(self) -> Triggers {
        self.triggers
    }

    /// The session's device.
    pub closed spec fn device(self) -> UInput {
        self.uinput
    }

    /// Whether only the session's mode, store, start time and the device's
    /// last record may differ between `self` and `before`.
    pub open spec fn same_setup(self, before: Session) -> bool {
        &&& self.options() == before.options()
        &&& self.triggers() == before.triggers()
        &&& self.device().descriptor() == before.device().descriptor()
        &&& self.device().stage() == before.device().stage()
    }

    /// Whether the session can replay: its device was created and not yet
    /// destroyed.
    pub open spec fn wf(self) -> bool {
        self.device().stage() == Stage::Created
    }

    /// An idle session with an empty store.
    pub fn new(options: Options, triggers: Triggers, uinput: UInput) -> (session: Session)
        ensures
            session.model().mode == Mode::Idle,
            session.model().store == Seq::<Event>::empty(),
            session.options() == options,
            session.triggers() == triggers,
            session.device() == uinput,
    {
        Session {
            options,
            triggers,
            mode: Mode::Idle,
            store: EventStore::new(),
            started: Timestamp { sec: 0, nsec: 0 },
            uinput,
        }
    }

    /// The session's mode.
    pub fn mode(&self) -> (mode: Mode)
        ensures
            mode == self.model().mode,
    {
        self.mode
    }

    /// Whether the session can replay.
    pub fn is_ready(&self) -> (ready: bool)
        ensures
            ready == self.wf(),
    {
        self.uinput.current_stage() == Stage::Created
    }

    /// When the recording under way, or the last one, started.
    pub fn started(&self) -> (started: Timestamp)
        ensures
            started == self.model().started,
    {
        self.started
    }

    /// The events recorded last.
    pub fn store(&self) -> (store: &EventStore)
        ensures
            store@ == self.model().store,
    {
        &self.store
    }

    /// The session's device.
    pub fn uinput(&self) -> (uinput: &UInput)
        ensures
            *uinput == self.device(),
    {
        &self.uinput
    }

    /// The session's configuration.
    pub fn configuration(&self) -> (options: Options)
        ensures
            options == self.options(),
    {
        self.options
    }

    /// Starts a recording at `now`: the store is emptied, whatever the mode.
    pub fn start_recording_at(&mut self, now: Timestamp) -> (notice: Notice)
        ensures
            notice == Notice::RecordingStarted,
            final(self).model() == (SessionModel {
                mode: Mode::Recording,
                store: Seq::empty(),
                started: now,
            }),
            final(self).same_setup(*old(self)),
            final(self).device() == old(self).device(),
    {
        self.store.clear();
        self.started = now;
        self.mode = Mode::Recording;
        Notice::RecordingStarted
    }

    /// Starts a recording now, by the wall clock.
    pub fn start_recording(&mut self) -> (notice: Notice)
        ensures
            notice == Notice::RecordingStarted,
            final(self).model().mode == Mode::Recording,
            final(self).model().store == Seq::<Event>::empty(),
            final(self).model().started.valid(),
            final(self).same_setup(*old(self)),
            final(self).device() == old(self).device(),
    {
        let now = wall_clock();
        self.start_recording_at(now)
    }

    /// The start-up step, taken once when a configured delay has been waited
    /// for, at `now`: with a delay configured the first recording starts;
    /// with none nothing happens.
    pub fn begin_at(&mut self, now: Timestamp) -> (commands: Vec<Command>)
        ensures
            final(self).model() == begun_model(old(self).options(), old(self).model(), now),
            commands@ == commands_at_start(old(self).options()),
            final(self).same_setup(*old(self)),
            final(self).device() == old(self).device(),
    {
        let mut commands: Vec<Command> = Vec::new();
        if self.options.record_delay.is_some() {
            let notice = self.start_recording_at(now);
            commands.push(Command::Report(notice));
        }
        commands
    }

    /// The start-up step, taken now by the wall clock.
    pub fn begin(&mut self) -> (commands: Vec<Command>)
        ensures
            exists|now: Timestamp|
                now.valid() && final(self).model() == #[trigger] begun_model(
                    old(self).options(),
                    old(self).model(),
                    now,
                ),
            commands@ == commands_at_start(old(self).options()),
            final(self).same_setup(*old(self)),
            final(self).device() == old(self).device(),
    {
        let now = wall_clock();
        self.begin_at(now)
    }

    /// Stops recording; what was recorded stays.
    pub fn stop_recording(&mut self) -> (notice: Notice)
        ensures
            notice == Notice::RecordingStopped,
            final(self).model() == (SessionModel { mode: Mode::Idle, ..old(self).model() }),
            final(self).same_setup(*old(self)),
            final(self).device() == old(self).device(),
    {
        self.mode = Mode::Idle;
        Notice::RecordingStopped
    }

    /// Looks at the clock once per cycle: a recording that has run its
    /// configured length at `now` stops.
    pub fn poll_at(&mut self, now: Timestamp) -> (commands: Vec<Command>)
        ensures
            final(self).model() == polled_model(old(self).options(), old(self).model(), now),
            commands@ == commands_at_poll(old(self).options(), old(self).model(), now),
            final(self).same_setup(*old(self)),
            final(self).device() == old(self).device(),
    {
        let mut commands: Vec<Command> = Vec::new();
        match self.options.record_length {
            Some(length) => {
                if self.mode == Mode::Recording && time_has_elapsed_at(self.started, now, length) {
                    let notice = self.stop_recording();
                    commands.push(Command::Report(notice));
                }
            },
            None => {},
        }
        commands
    }

    /// Looks at the wall clock and stops a recording that has run its length.
    pub fn poll(&mut self) -> (commands: Vec<Command>)
        ensures
            exists|now: Timestamp|
                now.valid() && final(self).model() == #[trigger] polled_model(
                    old(self).options(),
                    old(self).model(),
                    now,
                ) && commands@ == commands_at_poll(old(self).options(), old(self).model(), now),
            final(self).same_setup(*old(self)),
            final(self).device() == old(self).device(),
    {
        let now = wall_clock();
        self.poll_at(now)
    }

    /// Takes one event from the physical source, arriving at `now`, and says
    /// what is to be done. A trigger key's release changes the mode, and the
    /// replay key's release yields the whole replay between the suspension
    /// and the resumption of the source. Any other event is stored while
    /// recording and dropped otherwise.
    pub fn handle_event_at(&mut self, event: Event, now: Timestamp) -> (commands: Vec<Command>)
        requires
            old(self).wf(),
        ensures
            final(self).model() == next_model(old(self).triggers(), old(self).model(), event, now),
            commands@ == commands_for(
                old(self).options(),
                old(self).triggers(),
                old(self).model(),
                event,
            ),
            final(self).same_setup(*old(self)),
    {
        let mut commands: Vec<Command> = Vec::new();
        match classify(&self.triggers, &event) {
            Some(Trigger::Record) => {
                if released(&event) {
                    if self.mode == Mode::Recording {
                        let notice = self.stop_recording();
                        commands.push(Command::Report(notice));
                    } else {
                        let notice = self.start_recording_at(now);
                        commands.push(Command::Report(notice));
                    }
                }
            },
            Some(Trigger::Replay) => {
                if released(&event) {
                    if self.mode == Mode::Recording {
                        let notice = self.stop_recording();
                        commands.push(Command::Report(notice));
                    }
                    commands.push(Command::SuspendSource);
                    let mut script = replay_events(
                        &self.options,
                        self.store.iterate(),
                        &mut self.uinput,
                    );
                    commands.append(&mut script);
                    commands.push(Command::ResumeSource);
                }
            },
            None => {
                if self.mode == Mode::Recording {
                    self.store.append(event);
                }
            },
        }
        assert(commands@ =~= commands_for(
            old(self).options(),
            old(self).triggers(),
            old(self).model(),
            event,
        ));
        commands
    }

    /// Ends the session's hold on the device: the directive that destroys
    /// it, the first time, and nothing after that.
    pub fn shutdown(&mut self) -> (plan: Vec<Directive>)
        ensures
            plan@ == if old(self).wf() {
                seq![Directive::Destroy]
            } else {
                Seq::empty()
            },
            final(self).device().stage() == if old(self).wf() {
                Stage::Destroyed
            } else {
                old(self).device().stage()
            },
            !final(self).wf(),
            final(self).model() == old(self).model(),
            final(self).options() == old(self).options(),
            final(self).triggers() == old(self).triggers(),
    {
        self.uinput.teardown()
    }

    /// Takes one event from the physical source, arriving now by the wall
    /// clock.
    pub fn handle_event(&mut self, event: Event) -> (commands: Vec<Command>)
        requires
            old(self).wf(),
        ensures
            exists|now: Timestamp|
                now.valid() && final(self).model() == #[trigger] next_model(
                    old(self).triggers(),
                    old(self).model(),
                    event,
                    now,
                ),
            commands@ == commands_for(
                old(self).options(),
                old(self).triggers(),
                old(self).model(),
                event,
            ),
            final(self).same_setup(*old(self)),
    {
        let now = wall_clock();
        self.handle_event_at(event, now)
    }
}

/// A key is told by its whole code: an event belongs to a trigger exactly
/// where it is a key event that carries that trigger key's code, and no other
/// code is ever taken for it.
pub proof fn triggers_go_by_whole_code(triggers: Triggers, e: Event)
    ensures
        trigger_of(triggers, e) == Some(Trigger::Record) <==> (e is KeyEvent && e->code as int
            == triggers.record.code as int),
        trigger_of(triggers, e) == Some(Trigger::Replay) <==> (e is KeyEvent && e->code as int
            == triggers.replay.code as int && triggers.replay.code != triggers.record.code),
{
}

/// While recording, only the release of a trigger key changes the mode. Every
/// event that is not of a trigger key is stored behind the others and asks
/// for nothing to be done; an event of a trigger key is never stored.
pub proof fn recording_is_exclusive(
    options: Options,
    triggers: Triggers,
    m: SessionModel,
    e: Event,
    now: Timestamp,
)
    requires
        m.mode == Mode::Recording,
    ensures
        trigger_of(triggers, e).is_none() ==> next_model(triggers, m, e, now) == (SessionModel {
            store: m.store.push(e),
            ..m
        }) && commands_for(options, triggers, m, e) == Seq::<Command>::empty(),
        trigger_of(triggers, e).is_some() ==> next_model(triggers, m, e, now).store == m.store,
        next_model(triggers, m, e, now).mode != Mode::Recording <==> trigger_of(
            triggers,
            e,
        ).is_some() && is_release(e),
{
}

/// A recording with a configured length stops at the first look at the clock
/// at which that length has passed, and not before; an event that arrives
/// after it has stopped is not stored, unless it is a trigger key's.
pub proof fn recording_stops_at_length(
    options: Options,
    triggers: Triggers,
    m: SessionModel,
    now: Timestamp,
    e: Event,
    later: Timestamp,
)
    requires
        m.mode == Mode::Recording,
        options.record_length.is_some(),
    ensures
        has_elapsed(m.started, now, options.record_length.unwrap()) ==> polled_model(
            options,
            m,
            now,
        ) == (SessionModel { mode: Mode::Idle, ..m }),
        !has_elapsed(m.started, now, options.record_length.unwrap()) ==> polled_model(
            options,
            m,
            now,
        ) == m,
        has_elapsed(m.started, now, options.record_length.unwrap()) && trigger_of(
            triggers,
            e,
        ).is_none() ==> next_model(triggers, polled_model(options, m, now), e, later)
            == polled_model(options, m, now),
{
}

/// Whether `e` makes a session replay: the release of the replay key, where
/// that key is not the record key too.
pub open spec fn starts_replay(triggers: Triggers, e: Event) -> bool {
    trigger_of(triggers, e) == Some(Trigger::Replay) && is_release(e)
}

/// Every replay is bracketed: the commands for an event that starts one hold
/// exactly one suspension of the source, before everything written or waited
/// for, and exactly one resumption, at the very end, also where nothing was
/// recorded. The commands for any other event hold neither.
pub proof fn replay_is_bracketed(options: Options, triggers: Triggers, m: SessionModel, e: Event)
    ensures
        ({
            let commands = commands_for(options, triggers, m, e);
            let at = stop_commands(m.mode).len() as int;
            let end = commands.len() - 1;
            if starts_replay(triggers, e) {
                &&& at < end
                &&& commands[at] is SuspendSource
                &&& commands[end] is ResumeSource
                &&& commands.subrange(at + 1, end) == replay_script(options.speed, m.store)
                &&& forall|i: int|
                    0 <= i < commands.len() && i != at ==> !(#[trigger] commands[i]
                        is SuspendSource)
                &&& forall|i: int|
                    0 <= i < commands.len() && i != end ==> !(#[trigger] commands[i]
                        is ResumeSource)
                &&& forall|i: int|
                    0 <= i < commands.len() && (commands[i] is Write || commands[i] is Sleep)
                        ==> at < i < end
            } else {
                forall|i: int|
                    0 <= i < commands.len() ==> !(#[trigger] commands[i] is SuspendSource) && !(
                    commands[i] is ResumeSource)
            }
        }),
{
    let commands = commands_for(options, triggers, m, e);
    let at = stop_commands(m.mode).len() as int;
    let end = commands.len() - 1;
    if starts_replay(triggers, e) {
        let script = replay_script(options.speed, m.store);
        replay_leaves_source_alone(options.speed, m.store);
        assert(commands.subrange(at + 1, end) =~= script);
        assert forall|i: int| 0 <= i < commands.len() && i != at implies !(
        #[trigger] commands[i] is SuspendSource) by {
            if at < i < end {
                assert(commands[i] == script[i - at - 1]);
            }
        }
        assert forall|i: int| 0 <= i < commands.len() && i != end implies !(
        #[trigger] commands[i] is ResumeSource) by {
            if at < i < end {
                assert(commands[i] == script[i - at - 1]);
            }
        }
    }
}

} // verus!
