//! The binary records that the virtual input device's control file accepts.
//!
//! The layouts are those of a 64-bit little-endian Linux kernel: each field in
//! declaration order, no padding, the least significant byte first.
use vstd::prelude::*;

verus! {

/// Bytes of an event record.
pub const INPUT_EVENT_SIZE: usize = 24;

/// Bytes of a device descriptor.
pub const USER_DEV_SIZE: usize = 1116;

/// The two bytes of `x`, least significant first.
pub open spec fn le16(x: u16) -> Seq<u8> {
    seq![(x % 256) as u8, (x / 256) as u8]
}

/// The four bytes of `x`, least significant first.
pub open spec fn le32(x: u32) -> Seq<u8> {
    seq![
        (x % 256) as u8,
        (x / 256 % 256) as u8,
        (x / 65536 % 256) as u8,
        (x / 16777216) as u8,
    ]
}

/// The eight bytes of `x`, least significant first.
pub open spec fn le64(x: u64) -> Seq<u8> {
    le32((x % 0x1_0000_0000) as u32) + le32((x / 0x1_0000_0000) as u32)
}

/// The unsigned word with the bit pattern of `v` in two's complement.
pub open spec fn twos32(v: i32) -> u32 {
    if v >= 0 {
        v as u32
    } else {
        (v + 0x1_0000_0000) as u32
    }
}

/// The unsigned double word with the bit pattern of `v` in two's complement.
pub open spec fn twos64(v: i64) -> u64 {
    if v >= 0 {
        v as u64
    } else {
        (v + 0x1_0000_0000_0000_0000) as u64
    }
}

/// The bytes of a table of signed words, entry after entry.
pub open spec fn table_bytes(t: Seq<i32>) -> Seq<u8>
    decreases t.len(),
{
    if t.len() == 0 {
        Seq::empty()
    } else {
        table_bytes(t.drop_last()) + le32(twos32(t.last()))
    }
}

/// A table of `n` entries takes `4 * n` bytes.
pub proof fn table_bytes_len(t: Seq<i32>)
    ensures
        table_bytes(t).len() == 4 * t.len(),
    decreases t.len(),
{
    if t.len() > 0 {
        table_bytes_len(t.drop_last());
    }
}

fn push_le16(out: &mut Vec<u8>, x: u16)
    ensures
        final(out)@ == old(out)@ + le16(x),
{
    out.push((x % 256) as u8);
    out.push((x / 256) as u8);
    assert(out@ =~= old(out)@ + le16(x));
}

fn push_le32(out: &mut Vec<u8>, x: u32)
    ensures
        final(out)@ == old(out)@ + le32(x),
{
    out.push((x % 256) as u8);
    out.push((x / 256 % 256) as u8);
    out.push((x / 65536 % 256) as u8);
    out.push((x / 16777216) as u8);
    assert(out@ =~= old(out)@ + le32(x));
}

fn push_le64(out: &mut Vec<u8>, x: u64)
    ensures
        final(out)@ == old(out)@ + le64(x),
{
    push_le32(out, (x % 0x1_0000_0000) as u32);
    push_le32(out, (x / 0x1_0000_0000) as u32);
    assert(out@ =~= old(out)@ + le64(x));
}

fn unsigned32(v: i32) -> (u: u32)
    ensures
        u == twos32(v),
{
    if v >= 0 {
        v as u32
    } else {
        (v as i64 + 0x1_0000_0000) as u32
    }
}

fn unsigned64(v: i64) -> (u: u64)
    ensures
        u == twos64(v),
{
    if v >= 0 {
        v as u64
    } else {
        (v as i128 + 0x1_0000_0000_0000_0000) as u64
    }
}

fn push_table(out: &mut Vec<u8>, t: &[i32; 64])
    ensures
        final(out)@ == old(out)@ + table_bytes(t@),
{
    let mut i: usize = 0;
    while i < 64
        invariant
            i <= 64,
            out@ == old(out)@ + table_bytes(t@.take(i as int)),
        decreases 64 - i,
    {
        push_le32(out, unsigned32(t[i]));
        proof {
            assert(t@.take(i + 1).drop_last() =~= t@.take(i as int));
            assert(out@ =~= old(out)@ + table_bytes(t@.take(i + 1)));
        }
        i += 1;
    }
    assert(t@.take(64) =~= t@);
}

/// A point in time as the kernel lays it out: seconds and microseconds.
#[derive(Clone, Copy, Debug, PartialEq, Eq, Structural)]
pub struct timeval {
    pub tv_sec: i64,
    pub tv_usec: i64,
}

/// The identity that the virtual device reports.
#[derive(Clone, Copy, Debug, PartialEq, Eq, Structural)]
pub struct input_id {
    pub bustype: u16,
    pub vendor: u16,
    pub product: u16,
    pub version: u16,
}

/// One event record: a time, an event class, a code and a value.
#[derive(Clone, Copy, Debug, PartialEq, Eq, Structural)]
pub struct input_event {
    pub time: timeval,
    pub kind: u16,
    pub code: u16,
    pub value: i32,
}

/// The descriptor written once before the device is created.
#[derive(Clone, Copy, Debug)]
pub struct uinput_user_dev {
    pub name: [u8; 80],
    pub id: input_id,
    pub ff_effects_max: u32,
    pub absmax: [i32; 64],
    pub absmin: [i32; 64],
    pub absfuzz: [i32; 64],
    pub absflat: [i32; 64],
}

impl timeval {
    /// The sixteen bytes of the time.
    pub open spec fn spec_bytes(self) -> Seq<u8> {
        le64(twos64(self.tv_sec)) + le64(twos64(self.tv_usec))
    }
}

impl input_id {
    /// The eight bytes of the identity.
    pub open spec fn spec_bytes(self) -> Seq<u8> {
        le16(self.bustype) + le16(self.vendor) + le16(self.product) + le16(self.version)
    }
}

impl input_event {
    /// The record as the control file takes it.
    pub open spec fn spec_bytes(self) -> Seq<u8> {
        self.time.spec_bytes() + le16(self.kind) + le16(self.code) + le32(twos32(self.value))
    }

    /// Encodes the record for writing to the control file.
    pub fn to_bytes(&self) -> (bytes: Vec<u8>)
        ensures
            bytes@ == self.spec_bytes(),
            bytes@.len() == INPUT_EVENT_SIZE,
    {
        let mut out: Vec<u8> = Vec::new();
        push_le64(&mut out, unsigned64(self.time.tv_sec));
        push_le64(&mut out, unsigned64(self.time.tv_usec));
        push_le16(&mut out, self.kind);
        push_le16(&mut out, self.code);
        push_le32(&mut out, unsigned32(self.value));
        assert(out@ =~= self.spec_bytes());
        out
    }
}

impl uinput_user_dev {
    /// The descriptor as the control file takes it.
    pub open spec fn spec_bytes(self) -> Seq<u8> {
        self.name@ + self.id.spec_bytes() + le32(self.ff_effects_max) + table_bytes(self.absmax@)
            + table_bytes(self.absmin@) + table_bytes(self.absfuzz@) + table_bytes(
            self.absflat@,
        )
    }

    /// Encodes the descriptor for writing to the control file.
    pub fn to_bytes(&self) -> (bytes: Vec<u8>)
        ensures
            bytes@ == self.spec_bytes(),
            bytes@.len() == USER_DEV_SIZE,
    {
        let mut out: Vec<u8> = Vec::new();
        let mut i: usize = 0;
        while i < 80
            invariant
                i <= 80,
                out@ == self.name@.take(i as int),
            decreases 80 - i,
        {
            out.push(self.name[i]);
            assert(out@ =~= self.name@.take(i + 1));
            i += 1;
        }
        assert(self.name@.take(80) =~= self.name@);
        push_le16(&mut out, self.id.bustype);
        push_le16(&mut out, self.id.vendor);
        push_le16(&mut out, self.id.product);
        push_le16(&mut out, self.id.version);
        push_le32(&mut out, self.ff_effects_max);
        push_table(&mut out, &self.absmax);
        push_table(&mut out, &self.absmin);
        push_table(&mut out, &self.absfuzz);
        push_table(&mut out, &self.absflat);
        proof {
            table_bytes_len(self.absmax@);
            table_bytes_len(self.absmin@);
            table_bytes_len(self.absfuzz@);
            table_bytes_len(self.absflat@);
            assert(out@ =~= self.spec_bytes());
        }
        out
    }
}

} // verus!
