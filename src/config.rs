use vstd::prelude::*;

use crate::wire::{le16, le32, push_le16, push_le32};

verus! {

/// No category selected.
pub const CFG_UNSET: u8 = 0x00;
/// Device name, a string.
pub const CFG_ID_NAME: u8 = 0x01;
/// Device serial, a string.
pub const CFG_ID_SERIAL: u8 = 0x02;
/// Bus, vendor, product and version ids.
pub const CFG_ID_DEVIDS: u8 = 0x03;
/// Input property bitmap.
pub const CFG_PROP_BITS: u8 = 0x10;
/// Event code bitmap of the event type in `subsel`.
pub const CFG_EV_BITS: u8 = 0x11;
/// Absolute axis information of the axis in `subsel`.
pub const CFG_ABS_INFO: u8 = 0x12;

/// Bytes of the payload area.
pub const PAYLOAD_SIZE: u8 = 128;
/// Bytes before the payload: `select`, `subsel`, `size`.
pub const HEADER_SIZE: u8 = 3;

/// Range and resolution of one absolute axis.
#[derive(Clone, Copy, Debug, PartialEq, Eq, Structural)]
pub struct VirtioInputAbsInfo {
    pub min: u32,
    pub max: u32,
    pub fuzz: u32,
    pub flat: u32,
    pub res: u32,
}

/// Identity of the device on its bus.
#[derive(Clone, Copy, Debug, PartialEq, Eq, Structural)]
pub struct VirtioInputDevIDs {
    pub bustype: u16,
    pub vendor: u16,
    pub product: u16,
    pub version: u16,
}

/// The code bitmap that the device reports for one event type.
#[derive(Debug)]
pub struct EvBits {
    pub event_type: u8,
    pub bits: Vec<u8>,
}

/// The information that the device reports for one absolute axis.
#[derive(Clone, Copy, Debug)]
pub struct AbsAxis {
    pub code: u8,
    pub info: VirtioInputAbsInfo,
}

/// The static capability table of the device. Where an event type or an
/// axis is listed twice, the first entry counts. Strings and bitmaps longer
/// than the payload area are cut to its size.
#[derive(Debug)]
pub struct DeviceIdentity {
    pub name: Vec<u8>,
    pub serial: Vec<u8>,
    pub ids: VirtioInputDevIDs,
    pub prop_bits: Vec<u8>,
    pub ev_bits: Vec<EvBits>,
    pub abs: Vec<AbsAxis>,
}

/// Reason a config access is refused.
#[derive(Clone, Copy, Debug, PartialEq, Eq, Structural)]
pub enum ConfigError {
    /// The access reaches past the laid-out region.
    OutOfRange,
}

pub open spec fn devids_bytes(d: VirtioInputDevIDs) -> Seq<u8> {
    le16(d.bustype) + le16(d.vendor) + le16(d.product) + le16(d.version)
}

pub open spec fn absinfo_bytes(a: VirtioInputAbsInfo) -> Seq<u8> {
    le32(a.min) + le32(a.max) + le32(a.fuzz) + le32(a.flat) + le32(a.res)
}

/// The payload area holding `b` at its start, zero after it.
pub open spec fn padded(b: Seq<u8>) -> Seq<u8> {
    Seq::new(PAYLOAD_SIZE as nat, |i: int| if i < b.len() { b[i] } else { 0u8 })
}

/// How much of `b` fits in the payload area.
pub open spec fn clipped_len(b: Seq<u8>) -> nat {
    if b.len() <= PAYLOAD_SIZE { b.len() } else { PAYLOAD_SIZE as nat }
}

/// The payload of a string or bitmap entry, with its size.
pub open spec fn bytes_entry(b: Seq<u8>) -> (nat, Seq<u8>) {
    (clipped_len(b), padded(b))
}

/// The answer to a selection outside the table.
pub open spec fn unsupported() -> (nat, Seq<u8>) {
    (0, padded(Seq::empty()))
}

/// The bitmap of the first entry for event type `t`.
pub open spec fn find_ev(s: Seq<EvBits>, t: u8) -> Option<Seq<u8>>
    decreases s.len(),
{
    if s.len() == 0 {
        None
    } else {
        match find_ev(s.drop_last(), t) {
            Some(b) => Some(b),
            None => if s.last().event_type == t { Some(s.last().bits@) } else { None },
        }
    }
}

/// The information of the first entry for axis `c`.
pub open spec fn find_abs(s: Seq<AbsAxis>, c: u8) -> Option<VirtioInputAbsInfo>
    decreases s.len(),
{
    if s.len() == 0 {
        None
    } else {
        match find_abs(s.drop_last(), c) {
            Some(a) => Some(a),
            None => if s.last().code == c { Some(s.last().info) } else { None },
        }
    }
}

/// Whether the capability table has an entry for `(sel, sub)`.
pub open spec fn in_table(id: DeviceIdentity, sel: u8, sub: u8) -> bool {
    if sel == CFG_ID_NAME || sel == CFG_ID_SERIAL || sel == CFG_ID_DEVIDS || sel == CFG_PROP_BITS {
        sub == 0
    } else if sel == CFG_EV_BITS {
        find_ev(id.ev_bits@, sub) is Some
    } else if sel == CFG_ABS_INFO {
        find_abs(id.abs@, sub) is Some
    } else {
        false
    }
}

/// The `size` and 128-byte payload that the table gives for `(sel, sub)`.
pub open spec fn selection(id: DeviceIdentity, sel: u8, sub: u8) -> (nat, Seq<u8>) {
    if !in_table(id, sel, sub) {
        unsupported()
    } else if sel == CFG_ID_NAME {
        bytes_entry(id.name@)
    } else if sel == CFG_ID_SERIAL {
        bytes_entry(id.serial@)
    } else if sel == CFG_ID_DEVIDS {
        (8, padded(devids_bytes(id.ids)))
    } else if sel == CFG_PROP_BITS {
        bytes_entry(id.prop_bits@)
    } else if sel == CFG_EV_BITS {
        bytes_entry(find_ev(id.ev_bits@, sub).unwrap())
    } else {
        (20, padded(absinfo_bytes(find_abs(id.abs@, sub).unwrap())))
    }
}

/// The value of byte `pos` after `data` is written at `offset` over `prev`.
pub open spec fn written_byte(offset: int, data: Seq<u8>, pos: int, prev: u8) -> u8 {
    if offset <= pos < offset + data.len() { data[pos - offset] } else { prev }
}

fn padded_copy(b: &Vec<u8>) -> (r: Vec<u8>)
    ensures
        r@ == padded(b@),
{
    let mut out: Vec<u8> = Vec::new();
    let mut i: usize = 0;
    while i < PAYLOAD_SIZE as usize
        invariant
            i <= PAYLOAD_SIZE,
            out@.len() == i,
            forall|j: int| 0 <= j < i ==> out@[j] == padded(b@)[j],
        decreases PAYLOAD_SIZE - i,
    {
        if i < b.len() {
            out.push(b[i]);
        } else {
            out.push(0u8);
        }
        i = i + 1;
    }
    assert(out@ =~= padded(b@));
    out
}

fn clip_len(b: &Vec<u8>) -> (r: u8)
    ensures
        r as nat == clipped_len(b@),
{
    if b.len() <= PAYLOAD_SIZE as usize {
        b.len() as u8
    } else {
        PAYLOAD_SIZE
    }
}

fn find_ev_bits(s: &Vec<EvBits>, t: u8) -> (r: Option<usize>)
    ensures
        match r {
            Some(i) => i < s@.len() && find_ev(s@, t) == Some(s@[i as int].bits@),
            None => find_ev(s@, t) is None,
        },
{
    let mut i: usize = 0;
    while i < s.len()
        invariant
            i <= s@.len(),
            find_ev(s@.take(i as int), t) is None,
        decreases s@.len() - i,
    {
        assert(s@.take(i as int + 1).drop_last() =~= s@.take(i as int));
        if s[i].event_type == t {
            proof { lemma_find_ev_prefix(s@, i as int + 1, t); }
            return Some(i);
        }
        i = i + 1;
    }
    assert(s@.take(i as int) =~= s@);
    None
}

proof fn lemma_find_ev_prefix(s: Seq<EvBits>, k: int, t: u8)
    requires
        0 < k <= s.len(),
        find_ev(s.take(k), t) is Some,
    ensures
        find_ev(s, t) == find_ev(s.take(k), t),
    decreases s.len(),
{
    if k < s.len() {
        assert(s.drop_last().take(k) =~= s.take(k));
        lemma_find_ev_prefix(s.drop_last(), k, t);
    } else {
        assert(s.take(k) =~= s);
    }
}

fn find_abs_info(s: &Vec<AbsAxis>, c: u8) -> (r: Option<VirtioInputAbsInfo>)
    ensures
        r == find_abs(s@, c),
{
    let mut i: usize = 0;
    while i < s.len()
        invariant
            i <= s@.len(),
            find_abs(s@.take(i as int), c) is None,
        decreases s@.len() - i,
    {
        assert(s@.take(i as int + 1).drop_last() =~= s@.take(i as int));
        if s[i].code == c {
            proof { lemma_find_abs_prefix(s@, i as int + 1, c); }
            return Some(s[i].info);
        }
        i = i + 1;
    }
    assert(s@.take(i as int) =~= s@);
    None
}

proof fn lemma_find_abs_prefix(s: Seq<AbsAxis>, k: int, c: u8)
    requires
        0 < k <= s.len(),
        find_abs(s.take(k), c) is Some,
    ensures
        find_abs(s, c) == find_abs(s.take(k), c),
    decreases s.len(),
{
    if k < s.len() {
        assert(s.drop_last().take(k) =~= s.take(k));
        lemma_find_abs_prefix(s.drop_last(), k, c);
    } else {
        assert(s.take(k) =~= s);
    }
}

/// Looks `(sel, sub)` up in the capability table.
pub fn lookup(id: &DeviceIdentity, sel: u8, sub: u8) -> (r: (u8, Vec<u8>))
    ensures
        (r.0 as nat, r.1@) == selection(*id, sel, sub),
{
    let empty: Vec<u8> = Vec::new();
    if (sel == CFG_ID_NAME || sel == CFG_ID_SERIAL || sel == CFG_ID_DEVIDS || sel == CFG_PROP_BITS)
        && sub != 0 {
        return (0, padded_copy(&empty));
    }
    if sel == CFG_ID_NAME {
        (clip_len(&id.name), padded_copy(&id.name))
    } else if sel == CFG_ID_SERIAL {
        (clip_len(&id.serial), padded_copy(&id.serial))
    } else if sel == CFG_ID_DEVIDS {
        let mut b: Vec<u8> = Vec::new();
        push_le16(&mut b, id.ids.bustype);
        push_le16(&mut b, id.ids.vendor);
        push_le16(&mut b, id.ids.product);
        push_le16(&mut b, id.ids.version);
        assert(b@ =~= devids_bytes(id.ids));
        (8, padded_copy(&b))
    } else if sel == CFG_PROP_BITS {
        (clip_len(&id.prop_bits), padded_copy(&id.prop_bits))
    } else if sel == CFG_EV_BITS {
        match find_ev_bits(&id.ev_bits, sub) {
            Some(i) => (clip_len(&id.ev_bits[i].bits), padded_copy(&id.ev_bits[i].bits)),
            None => (0, padded_copy(&empty)),
        }
    } else if sel == CFG_ABS_INFO {
        match find_abs_info(&id.abs, sub) {
            Some(info) => {
                let mut b: Vec<u8> = Vec::new();
                push_le32(&mut b, info.min);
                push_le32(&mut b, info.max);
                push_le32(&mut b, info.fuzz);
                push_le32(&mut b, info.flat);
                push_le32(&mut b, info.res);
                assert(b@ =~= absinfo_bytes(info));
                (20, padded_copy(&b))
            },
            None => (0, padded_copy(&empty)),
        }
    } else {
        (0, padded_copy(&empty))
    }
}

/// The config register block the guest driver reads and writes: the
/// current `select`/`subsel` cursor, and the `size` and payload that the
/// capability table gives for it. The methods keep `size` and `payload`
/// equal to the table's answer for the cursor (`wf`).
pub struct VirtioInputConfig {
    identity: DeviceIdentity,
    select: u8,
    subsel: u8,
    size: u8,
    payload: Vec<u8>,
}

impl VirtioInputConfig {
    /// `size` and payload are always the table's answer for the cursor.
    pub open spec fn wf(&self) -> bool {
        &&& self.payload_spec().len() == PAYLOAD_SIZE
        &&& (self.size_spec() as nat, self.payload_spec()) == selection(
            self.identity_spec(),
            self.select_spec(),
            self.subsel_spec(),
        )
    }

    pub closed spec fn identity_spec(&self) -> DeviceIdentity {
        self.identity
    }

    pub closed spec fn select_spec(&self) -> u8 {
        self.select
    }

    pub closed spec fn subsel_spec(&self) -> u8 {
        self.subsel
    }

    pub closed spec fn size_spec(&self) -> u8 {
        self.size
    }

    /// The 128 bytes of the payload area.
    pub closed spec fn payload_spec(&self) -> Seq<u8> {
        self.payload@
    }

    /// The laid-out region: `[select][subsel][size][payload up to size]`.
    pub open spec fn layout(&self) -> Seq<u8> {
        seq![self.select_spec(), self.subsel_spec(), self.size_spec()] + self.payload_spec().take(
            self.size_spec() as int,
        )
    }

    /// Whether an access of `len` bytes at `offset` stays inside the region.
    pub open spec fn in_range(&self, offset: int, len: int) -> bool {
        offset + len <= HEADER_SIZE + self.size_spec()
    }

    /// `next` is `self` after `data` was written at `offset`: the written
    /// bytes that fall on `select` and `subsel` move the cursor, and the
    /// rest of the block is recomputed from the table for the new cursor.
    pub open spec fn written(&self, next: Self, offset: int, data: Seq<u8>) -> bool {
        &&& next.wf()
        &&& next.identity_spec() == self.identity_spec()
        &&& next.select_spec() == written_byte(offset, data, 0, self.select_spec())
        &&& next.subsel_spec() == written_byte(offset, data, 1, self.subsel_spec())
    }

    /// A register for `identity`, with no category selected.
    pub fn new(identity: DeviceIdentity) -> (r: Self)
        ensures
            r.wf(),
            r.identity_spec() == identity,
            r.select_spec() == CFG_UNSET,
            r.subsel_spec() == 0,
            r.size_spec() == 0,
    {
        let (size, payload) = lookup(&identity, CFG_UNSET, 0);
        VirtioInputConfig { identity, select: CFG_UNSET, subsel: 0, size, payload }
    }

    pub fn select(&self) -> (r: u8)
        ensures
            r == self.select_spec(),
    {
        self.select
    }

    pub fn subsel(&self) -> (r: u8)
        ensures
            r == self.subsel_spec(),
    {
        self.subsel
    }

    pub fn size(&self) -> (r: u8)
        ensures
            r == self.size_spec(),
    {
        self.size
    }

    /// The payload area, 128 bytes.
    pub fn payload(&self) -> (r: &Vec<u8>)
        ensures
            r@ == self.payload_spec(),
    {
        &self.payload
    }

    pub fn identity(&self) -> (r: &DeviceIdentity)
        ensures
            *r == self.identity_spec(),
    {
        &self.identity
    }

    /// Reads `length` bytes at `offset` of the laid-out region. The register
    /// is left as it was, so reads without a write in between agree.
    pub fn read(&self, offset: u32, length: u32) -> (r: Result<Vec<u8>, ConfigError>)
        requires
            self.wf(),
        ensures
            r is Ok <==> self.in_range(offset as int, length as int),
            r matches Ok(v) ==> v@ == self.layout().subrange(offset as int, offset + length),
            r matches Err(e) ==> e == ConfigError::OutOfRange,
    {
        if offset as u64 + length as u64 > HEADER_SIZE as u64 + self.size as u64 {
            return Err(ConfigError::OutOfRange);
        }
        let mut out: Vec<u8> = Vec::new();
        let end = offset + length;
        let mut pos: u32 = offset;
        while pos < end
            invariant
                self.wf(),
                offset <= pos <= end,
                end == offset + length,
                end <= HEADER_SIZE + self.size,
                out@ == self.layout().subrange(offset as int, pos as int),
            decreases end - pos,
        {
            let b = if pos == 0 {
                self.select
            } else if pos == 1 {
                self.subsel
            } else if pos == 2 {
                self.size
            } else {
                self.payload[(pos - 3) as usize]
            };
            assert(b == self.layout()[pos as int]);
            out.push(b);
            assert(out@ =~= self.layout().subrange(offset as int, pos + 1));
            pos = pos + 1;
        }
        Ok(out)
    }

    /// Writes `data` at `offset` of the laid-out region; the block then
    /// holds the table's answer for the new cursor. An access past the
    /// region is refused and changes nothing.
    pub fn write(&mut self, offset: u32, data: &[u8]) -> (r: Result<(), ConfigError>)
        requires
            old(self).wf(),
        ensures
            r is Ok <==> old(self).in_range(offset as int, data@.len() as int),
            r is Ok ==> old(self).written(*final(self), offset as int, data@),
            r matches Err(e) ==> e == ConfigError::OutOfRange && *final(self) == *old(self),
    {
        if data.len() > HEADER_SIZE as usize + self.size as usize
            || offset as u64 + data.len() as u64 > HEADER_SIZE as u64 + self.size as u64 {
            return Err(ConfigError::OutOfRange);
        }
        let mut select = self.select;
        let mut subsel = self.subsel;
        if offset == 0 && data.len() >= 1 {
            select = data[0];
        }
        if offset <= 1 && 1 < offset as usize + data.len() {
            subsel = data[(1 - offset) as usize];
        }
        let (size, payload) = lookup(&self.identity, select, subsel);
        self.select = select;
        self.subsel = subsel;
        self.size = size;
        self.payload = payload;
        Ok(())
    }
}

/// A selection that the capability table does not hold reads back as
/// unsupported: `size` 0 and a payload of zeros.
pub proof fn lemma_unknown_selection_reads_unsupported(
    reg: VirtioInputConfig,
    next: VirtioInputConfig,
    sel: u8,
    sub: u8,
)
    requires
        reg.wf(),
        reg.written(next, 0, seq![sel, sub]),
        !in_table(reg.identity_spec(), sel, sub),
    ensures
        reg.in_range(0, 2),
        next.size_spec() == 0,
        next.payload_spec() == Seq::new(PAYLOAD_SIZE as nat, |i: int| 0u8),
        next.layout() == seq![sel, sub, 0u8],
{
    assert(next.payload@ =~= Seq::new(PAYLOAD_SIZE as nat, |i: int| 0u8));
    assert(next.layout() =~= seq![sel, sub, 0u8]);
}

/// Whatever the cursor, the table's answer fits the payload area.
pub proof fn lemma_selection_size_bounded(id: DeviceIdentity, sel: u8, sub: u8)
    ensures
        selection(id, sel, sub).0 <= PAYLOAD_SIZE,
        selection(id, sel, sub).1.len() == PAYLOAD_SIZE,
{
}

/// Selecting the same pair gives the same region, byte for byte, whatever
/// the register held before and however often the pair is selected again.
pub proof fn lemma_reselect_same_region(
    a: VirtioInputConfig,
    a2: VirtioInputConfig,
    b: VirtioInputConfig,
    b2: VirtioInputConfig,
    sel: u8,
    sub: u8,
)
    requires
        a.wf(),
        b.wf(),
        a.identity_spec() == b.identity_spec(),
        a.written(a2, 0, seq![sel, sub]),
        b.written(b2, 0, seq![sel, sub]),
    ensures
        a.in_range(0, 2),
        b.in_range(0, 2),
        a2.layout() == b2.layout(),
        a2.size_spec() <= PAYLOAD_SIZE,
{
    assert(a2.payload@ == b2.payload@);
    assert(a2.layout() =~= b2.layout());
}

} // verus!
