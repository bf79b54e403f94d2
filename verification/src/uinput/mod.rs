//! The virtual input device: what it is told at start-up and the records it is
//! fed afterwards.
//!
//! Nothing here touches the device's control file. The handle composes
//! directives and records; its owner carries them out in the order given.
use vstd::prelude::*;

pub mod key;
pub mod uinput_sys;

pub use self::key::Key;
use self::uinput_sys::{input_event, input_id, timeval, uinput_user_dev};

verus! {

/// The code of the left pointer button.
pub const BTN_LEFT: u16 = 0x110;

/// The code of the right pointer button.
pub const BTN_RIGHT: u16 = 0x111;

/// The code of the horizontal axis.
pub const AXIS_X: u16 = 0;

/// The code of the vertical axis.
pub const AXIS_Y: u16 = 1;

/// The lowest key code that the device declares.
pub const FIRST_KEY: u16 = 1;

/// The highest key code that the device declares.
pub const LAST_KEY: u16 = 149;

/// The classes of event records.
#[derive(Clone, Copy, Debug, PartialEq, Eq, Structural)]
pub enum EventType {
    EV_SYN,
    EV_KEY,
    EV_REL,
    EV_ABS,
}

impl EventType {
    /// The number that stands for the class in a record.
    pub open spec fn spec_code(self) -> u16 {
        match self {
            EventType::EV_SYN => 0,
            EventType::EV_KEY => 1,
            EventType::EV_REL => 2,
            EventType::EV_ABS => 3,
        }
    }

    /// The number that stands for the class in a record.
    pub fn code(self) -> (c: u16)
        ensures
            c == self.spec_code(),
    {
        match self {
            EventType::EV_SYN => 0,
            EventType::EV_KEY => 1,
            EventType::EV_REL => 2,
            EventType::EV_ABS => 3,
        }
    }
}

/// Where a device stands in its life. It is created once and destroyed once,
/// and what is destroyed stays so.
#[derive(Clone, Copy, Debug, PartialEq, Eq, Structural)]
pub enum Stage {
    Uninitialized,
    Created,
    Destroyed,
}

/// One thing that the control file is told while the device is set up or torn
/// down.
#[derive(Clone, Copy, Debug, PartialEq, Eq, Structural)]
pub enum Directive {
    /// Declare an event class.
    SetEvBit(EventType),
    /// Declare a key or button code.
    SetKeyBit(u16),
    /// Declare a relative axis.
    SetRelBit(u16),
    /// Write the device descriptor.
    WriteDescriptor,
    /// Create the device.
    Create,
    /// Destroy the device.
    Destroy,
}

/// The record of class `kind` with the given code and value, its time zeroed.
pub open spec fn record(kind: EventType, code: u16, value: i32) -> input_event {
    input_event { time: timeval { tv_sec: 0, tv_usec: 0 }, kind: kind.spec_code(), code, value }
}

/// The declarations of the key codes from `FIRST_KEY` up to, not including,
/// `end`.
pub open spec fn key_bits(end: int) -> Seq<Directive> {
    Seq::new((end - FIRST_KEY) as nat, |i: int| Directive::SetKeyBit((FIRST_KEY + i) as u16))
}

/// What brings the device up, in order: the key class, both buttons, every key
/// code, the relative class with both axes, the descriptor, the creation.
pub open spec fn setup_sequence() -> Seq<Directive> {
    seq![
        Directive::SetEvBit(EventType::EV_KEY),
        Directive::SetKeyBit(BTN_LEFT),
        Directive::SetKeyBit(BTN_RIGHT),
    ] + key_bits(LAST_KEY + 1) + seq![
        Directive::SetEvBit(EventType::EV_REL),
        Directive::SetRelBit(AXIS_X),
        Directive::SetRelBit(AXIS_Y),
        Directive::WriteDescriptor,
        Directive::Create,
    ]
}

/// The set-up declares every key code from `FIRST_KEY` to `LAST_KEY` and both
/// buttons, and nothing comes after the creation.
pub proof fn setup_declares_keys(code: u16)
    requires
        FIRST_KEY <= code <= LAST_KEY || code == BTN_LEFT || code == BTN_RIGHT,
    ensures
        setup_sequence().contains(Directive::SetKeyBit(code)),
        setup_sequence().last() == Directive::Create,
{
    let plan = setup_sequence();
    if code == BTN_LEFT {
        assert(plan[1] == Directive::SetKeyBit(code));
    } else if code == BTN_RIGHT {
        assert(plan[2] == Directive::SetKeyBit(code));
    } else {
        assert(key_bits(LAST_KEY + 1)[code - FIRST_KEY] == Directive::SetKeyBit(code));
        assert(plan[3 + code - FIRST_KEY] == Directive::SetKeyBit(code));
    }
}

/// The name of the device: the letter `a`, then zeros.
pub open spec fn device_name() -> Seq<u8> {
    Seq::new(80, |i: int| if i == 0 { 97u8 } else { 0u8 })
}

/// A table of sixty-four zeros.
pub open spec fn zero_table() -> Seq<i32> {
    Seq::new(64, |i: int| 0i32)
}

/// The handle of the virtual device.
pub struct UInput {
    ffi: uinput_user_dev,
    ev: input_event,
    stage: Stage,
}

impl UInput {
    /// The device's descriptor.
    pub closed spec fn descriptor(self) -> uinput_user_dev {
        self.ffi
    }

    /// The record composed last.
    pub closed spec fn last(self) -> input_event {
        self.ev
    }

    /// Where the device stands in its life.
    pub closed spec fn stage(self) -> Stage {
        self.stage
    }

    /// Whether `self` is the created device `before` after it composed `rec`.
    pub open spec fn emitted(self, before: UInput, rec: input_event) -> bool {
        &&& self.last() == rec
        &&& self.descriptor() == before.descriptor()
        &&& self.stage() == Stage::Created
    }

    /// A handle whose descriptor names the device `a` on the USB bus, with
    /// vendor, product and version 1 and no absolute axes, and whose last
    /// record is zero.
    pub fn new() -> (dev: UInput)
        ensures
            dev.descriptor().name@ == device_name(),
            dev.descriptor().id == (input_id { bustype: 3, vendor: 1, product: 1, version: 1 }),
            dev.descriptor().ff_effects_max == 0,
            dev.descriptor().absmax@ == zero_table(),
            dev.descriptor().absmin@ == zero_table(),
            dev.descriptor().absfuzz@ == zero_table(),
            dev.descriptor().absflat@ == zero_table(),
            dev.last() == record(EventType::EV_SYN, 0, 0),
            dev.stage() == Stage::Uninitialized,
    {
        let mut name = [0u8; 80];
        name[0] = 97;
        let zeros = [0i32; 64];
        let ffi = uinput_user_dev {
            name,
            id: input_id { bustype: 3, vendor: 1, product: 1, version: 1 },
            ff_effects_max: 0,
            absmax: zeros,
            absmin: zeros,
            absfuzz: zeros,
            absflat: zeros,
        };
        let ev = input_event { time: timeval { tv_sec: 0, tv_usec: 0 }, kind: 0, code: 0, value: 0 };
        proof {
            assert(ffi.name@ =~= device_name());
            assert(zeros@ =~= zero_table());
        }
        UInput { ffi, ev, stage: Stage::Uninitialized }
    }

    /// Where the device stands in its life.
    pub fn current_stage(&self) -> (stage: Stage)
        ensures
            stage == self.stage(),
    {
        self.stage
    }

    /// Brings the device up: the directives to carry out, in order. A device
    /// is created once, so for one that was created or destroyed before there
    /// is nothing to do.
    pub fn setup(&mut self) -> (plan: Vec<Directive>)
        ensures
            plan@ == if old(self).stage() == Stage::Uninitialized {
                setup_sequence()
            } else {
                Seq::empty()
            },
            final(self).stage() == if old(self).stage() == Stage::Uninitialized {
                Stage::Created
            } else {
                old(self).stage()
            },
            final(self).descriptor() == old(self).descriptor(),
            final(self).last() == old(self).last(),
    {
        let mut plan: Vec<Directive> = Vec::new();
        if self.stage != Stage::Uninitialized {
            return plan;
        }
        plan.push(Directive::SetEvBit(EventType::EV_KEY));
        plan.push(Directive::SetKeyBit(BTN_LEFT));
        plan.push(Directive::SetKeyBit(BTN_RIGHT));
        let ghost head = plan@;
        let mut code: u16 = FIRST_KEY;
        while code <= LAST_KEY
            invariant
                FIRST_KEY <= code <= LAST_KEY + 1,
                plan@ == head + key_bits(code as int),
            decreases LAST_KEY + 1 - code,
        {
            plan.push(Directive::SetKeyBit(code));
            assert(plan@ =~= head + key_bits(code + 1));
            code += 1;
        }
        plan.push(Directive::SetEvBit(EventType::EV_REL));
        plan.push(Directive::SetRelBit(AXIS_X));
        plan.push(Directive::SetRelBit(AXIS_Y));
        plan.push(Directive::WriteDescriptor);
        plan.push(Directive::Create);
        assert(plan@ =~= setup_sequence());
        self.stage = Stage::Created;
        plan
    }

    /// Takes the device down: the one directive that destroys a created
    /// device. Asked again, or of a device never created, it gives nothing, so
    /// a device is destroyed exactly once.
    pub fn teardown(&mut self) -> (plan: Vec<Directive>)
        ensures
            plan@ == if old(self).stage() == Stage::Created {
                seq![Directive::Destroy]
            } else {
                Seq::empty()
            },
            final(self).stage() == if old(self).stage() == Stage::Created {
                Stage::Destroyed
            } else {
                old(self).stage()
            },
            final(self).descriptor() == old(self).descriptor(),
            final(self).last() == old(self).last(),
    {
        let mut plan: Vec<Directive> = Vec::new();
        if self.stage == Stage::Created {
            plan.push(Directive::Destroy);
            self.stage = Stage::Destroyed;
        }
        plan
    }

    /// The descriptor's bytes, for the directive that writes it.
    pub fn descriptor_bytes(&self) -> (bytes: Vec<u8>)
        ensures
            bytes@ == self.descriptor().spec_bytes(),
            bytes@.len() == uinput_sys::USER_DEV_SIZE,
    {
        self.ffi.to_bytes()
    }

    /// A key goes down.
    pub fn key_press(&mut self, key: Key) -> (rec: input_event)
        requires
            old(self).stage() == Stage::Created,
        ensures
            rec == record(EventType::EV_KEY, key.code, 1),
            final(self).emitted(*old(self), rec),
    {
        self.ev.kind = EventType::EV_KEY.code();
        let val: u16 = key.into();
        self.ev.code = val;
        self.ev.value = 1;
        self.write()
    }

    /// A key comes up.
    pub fn key_release(&mut self, key: Key) -> (rec: input_event)
        requires
            old(self).stage() == Stage::Created,
        ensures
            rec == record(EventType::EV_KEY, key.code, 0),
            final(self).emitted(*old(self), rec),
    {
        self.ev.kind = EventType::EV_KEY.code();
        let val: u16 = key.into();
        self.ev.code = val;
        self.ev.value = 0;
        self.write()
    }

    /// A key goes down and comes up again.
    pub fn key_click(&mut self, key: Key) -> (recs: (input_event, input_event))
        requires
            old(self).stage() == Stage::Created,
        ensures
            recs.0 == record(EventType::EV_KEY, key.code, 1),
            recs.1 == record(EventType::EV_KEY, key.code, 0),
            final(self).emitted(*old(self), recs.1),
    {
        let down = self.key_press(key);
        let up = self.key_release(key);
        (down, up)
    }

    /// The left button goes down.
    pub fn btn_left_press(&mut self) -> (rec: input_event)
        requires
            old(self).stage() == Stage::Created,
        ensures
            rec == record(EventType::EV_KEY, BTN_LEFT, 1),
            final(self).emitted(*old(self), rec),
    {
        self.ev.kind = EventType::EV_KEY.code();
        self.ev.code = BTN_LEFT;
        self.ev.value = 1;
        self.write()
    }

    /// The left button comes up.
    pub fn btn_left_release(&mut self) -> (rec: input_event)
        requires
            old(self).stage() == Stage::Created,
        ensures
            rec == record(EventType::EV_KEY, BTN_LEFT, 0),
            final(self).emitted(*old(self), rec),
    {
        self.ev.kind = EventType::EV_KEY.code();
        self.ev.code = BTN_LEFT;
        self.ev.value = 0;
        self.write()
    }

    /// The right button goes down.
    pub fn btn_right_press(&mut self) -> (rec: input_event)
        requires
            old(self).stage() == Stage::Created,
        ensures
            rec == record(EventType::EV_KEY, BTN_RIGHT, 1),
            final(self).emitted(*old(self), rec),
    {
        self.ev.kind = EventType::EV_KEY.code();
        self.ev.code = BTN_RIGHT;
        self.ev.value = 1;
        self.write()
    }

    /// The right button comes up.
    pub fn btn_right_release(&mut self) -> (rec: input_event)
        requires
            old(self).stage() == Stage::Created,
        ensures
            rec == record(EventType::EV_KEY, BTN_RIGHT, 0),
            final(self).emitted(*old(self), rec),
    {
        self.ev.kind = EventType::EV_KEY.code();
        self.ev.code = BTN_RIGHT;
        self.ev.value = 0;
        self.write()
    }

    /// The end of a frame: what was emitted since the last one takes effect.
    pub fn sync(&mut self) -> (rec: input_event)
        requires
            old(self).stage() == Stage::Created,
        ensures
            rec == record(EventType::EV_SYN, 0, 0),
            final(self).emitted(*old(self), rec),
    {
        self.ev.kind = EventType::EV_SYN.code();
        self.ev.code = 0;
        self.ev.value = 0;
        self.write()
    }

    /// The pointer moves `val` units along the horizontal axis.
    pub fn rel_x(&mut self, val: i32) -> (rec: input_event)
        requires
            old(self).stage() == Stage::Created,
        ensures
            rec == record(EventType::EV_REL, AXIS_X, val),
            final(self).emitted(*old(self), rec),
    {
        self.ev.kind = EventType::EV_REL.code();
        self.ev.code = AXIS_X;
        self.ev.value = val;
        self.write()
    }

    /// The pointer moves `val` units along the vertical axis.
    pub fn rel_y(&mut self, val: i32) -> (rec: input_event)
        requires
            old(self).stage() == Stage::Created,
        ensures
            rec == record(EventType::EV_REL, AXIS_Y, val),
            final(self).emitted(*old(self), rec),
    {
        self.ev.kind = EventType::EV_REL.code();
        self.ev.code = AXIS_Y;
        self.ev.value = val;
        self.write()
    }

    /// The pointer is put at `val` on the horizontal axis.
    pub fn abs_x(&mut self, val: i32) -> (rec: input_event)
        requires
            old(self).stage() == Stage::Created,
        ensures
            rec == record(EventType::EV_ABS, AXIS_X, val),
            final(self).emitted(*old(self), rec),
    {
        self.ev.kind = EventType::EV_ABS.code();
        self.ev.code = AXIS_X;
        self.ev.value = val;
        self.write()
    }

    /// The pointer is put at `val` on the vertical axis.
    pub fn abs_y(&mut self, val: i32) -> (rec: input_event)
        requires
            old(self).stage() == Stage::Created,
        ensures
            rec == record(EventType::EV_ABS, AXIS_Y, val),
            final(self).emitted(*old(self), rec),
    {
        self.ev.kind = EventType::EV_ABS.code();
        self.ev.code = AXIS_Y;
        self.ev.value = val;
        self.write()
    }

    /// Hands out the composed record with its time zeroed, as the device
    /// stamps each record on arrival.
    fn write(&mut self) -> (rec: input_event)
        ensures
            rec == (input_event { time: timeval { tv_sec: 0, tv_usec: 0 }, ..old(self).ev }),
            final(self).ev == rec,
            final(self).ffi == old(self).ffi,
            final(self).stage == old(self).stage,
    {
        self.ev.time = timeval { tv_sec: 0, tv_usec: 0 };
        self.ev
    }
}

} // verus!
