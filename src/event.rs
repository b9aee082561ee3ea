use vstd::prelude::*;

use crate::wire::{le16, le32, push_le16, push_le32};

verus! {

/// Size in bytes of one event record on the wire.
pub const EVENT_SIZE: u32 = 8;

/// Size in bytes of one record read from a host evdev device on a 64-bit
/// host: a 16-byte timestamp, then type, code and value.
pub const EVDEV_RECORD_SIZE: usize = 24;

/// One input event as the host input source reports it (evdev style: the
/// value is signed).
#[derive(Clone, Copy, Debug, PartialEq, Eq, Structural)]
pub struct HostInputEvent {
    pub event_type: u16,
    pub code: u16,
    pub value: i32,
}

/// One input event in the form the guest driver reads it.
#[derive(Clone, Copy, Debug, PartialEq, Eq, Structural)]
pub struct VirtioInputEvent {
    pub event_type: u16,
    pub code: u16,
    pub value: u32,
}

/// The record a host event becomes: type and code unchanged, the value
/// reinterpreted as its 32-bit two's complement pattern, never clamped.
pub open spec fn translated(e: HostInputEvent) -> VirtioInputEvent {
    VirtioInputEvent { event_type: e.event_type, code: e.code, value: e.value as u32 }
}

pub open spec fn u16_le_at(b: Seq<u8>, i: int) -> u16 {
    (b[i] as int + 256 * b[i + 1] as int) as u16
}

pub open spec fn u32_le_at(b: Seq<u8>, i: int) -> u32 {
    (b[i] as int + 256 * b[i + 1] as int + 65536 * b[i + 2] as int + 16777216 * b[i + 3] as int) as u32
}

/// The event that a host evdev record holds: type at byte 16, code at 18,
/// value at 20, little-endian; the timestamp is not kept.
pub open spec fn evdev_event(b: Seq<u8>) -> HostInputEvent {
    HostInputEvent {
        event_type: u16_le_at(b, 16),
        code: u16_le_at(b, 18),
        value: u32_le_at(b, 20) as i32,
    }
}

/// The eight bytes of an event record: type, code, value, little-endian and
/// without padding.
pub open spec fn event_bytes(e: VirtioInputEvent) -> Seq<u8> {
    le16(e.event_type) + le16(e.code) + le32(e.value)
}

impl HostInputEvent {
    /// Decodes one record read from a host evdev device; anything but a
    /// whole record is refused.
    pub fn from_evdev(b: &[u8]) -> (r: Option<Self>)
        ensures
            r == (if b@.len() == EVDEV_RECORD_SIZE { Some(evdev_event(b@)) } else { None }),
    {
        if b.len() != EVDEV_RECORD_SIZE {
            return None;
        }
        let event_type = b[16] as u16 + 256 * b[17] as u16;
        let code = b[18] as u16 + 256 * b[19] as u16;
        let value = b[20] as u32 + 256 * b[21] as u32 + 65536 * b[22] as u32 + 16777216 * b[23] as u32;
        Some(HostInputEvent { event_type, code, value: value as i32 })
    }
}

impl VirtioInputEvent {
    pub fn new(event_type: u16, code: u16, value: u32) -> (r: Self)
        ensures
            r == (VirtioInputEvent { event_type, code, value }),
    {
        VirtioInputEvent { event_type, code, value }
    }

    /// Converts an event of the host input source into a wire record.
    pub fn from_host(e: HostInputEvent) -> (r: Self)
        ensures
            r == translated(e),
    {
        VirtioInputEvent { event_type: e.event_type, code: e.code, value: e.value as u32 }
    }

    /// The record as the guest reads it from its buffer.
    pub fn to_le_bytes(&self) -> (r: Vec<u8>)
        ensures
            r@ == event_bytes(*self),
            r@.len() == EVENT_SIZE,
    {
        let mut out: Vec<u8> = Vec::new();
        push_le16(&mut out, self.event_type);
        push_le16(&mut out, self.code);
        push_le32(&mut out, self.value);
        assert(out@ =~= event_bytes(*self));
        out
    }
}

} // verus!
