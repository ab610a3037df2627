//! The access byte of a GDT segment descriptor.
//!
//! Bit layout, fixed by the CPU:
//! ```text
//! 7 6 5  4 3  2   1   0
//! P DPL  S E  DC  RW  A
//! ```
//! P: present; DPL: descriptor privilege level (0 = most privileged);
//! S: system vs. code/data; E: executable; DC: direction/conforming;
//! RW: readable (code) / writeable (data); A: accessed.

use vstd::prelude::*;

verus! {

/// The finished one-byte access field of a segment descriptor.
#[derive(Clone, Copy, Debug, PartialEq, Eq)]
pub struct AccessByte(pub u8);

#[derive(Clone, Copy, Debug, PartialEq, Eq)]
pub enum PrivilegeLevel {
    Ring0,
    Ring1,
    Ring2,
    Ring3,
}

#[derive(Clone, Copy, Debug, PartialEq, Eq)]
pub enum SegmentType {
    SystemSegment,
    CodeOrData,
}

#[derive(Clone, Copy, Debug, PartialEq, Eq)]
pub enum SegmentDirection {
    Normal,
    ConformingOrExpandDown,
}

#[derive(Clone, Copy, Debug, PartialEq, Eq)]
pub enum Executable {
    Data,
    Code,
}

#[derive(Clone, Copy, Debug, PartialEq, Eq)]
pub enum ReadableWriteable {
    No,
    Yes,
}

#[derive(Clone, Copy, Debug, PartialEq, Eq)]
pub enum Accessed {
    No,
    Yes,
}

#[derive(Clone, Copy, Debug, PartialEq, Eq)]
pub enum Present {
    No,
    Yes,
}

pub open spec fn present_bits(p: Present) -> u8 {
    match p {
        Present::No => 0,
        Present::Yes => 1,
    }
}

pub open spec fn dpl_bits(l: PrivilegeLevel) -> u8 {
    match l {
        PrivilegeLevel::Ring0 => 0,
        PrivilegeLevel::Ring1 => 1,
        PrivilegeLevel::Ring2 => 2,
        PrivilegeLevel::Ring3 => 3,
    }
}

pub open spec fn segment_type_bits(s: SegmentType) -> u8 {
    match s {
        SegmentType::SystemSegment => 0,
        SegmentType::CodeOrData => 1,
    }
}

pub open spec fn direction_bits(d: SegmentDirection) -> u8 {
    match d {
        SegmentDirection::Normal => 0,
        SegmentDirection::ConformingOrExpandDown => 1,
    }
}

pub open spec fn executable_bits(e: Executable) -> u8 {
    match e {
        Executable::Data => 0,
        Executable::Code => 1,
    }
}

pub open spec fn readable_writeable_bits(rw: ReadableWriteable) -> u8 {
    match rw {
        ReadableWriteable::No => 0,
        ReadableWriteable::Yes => 1,
    }
}

pub open spec fn accessed_bits(a: Accessed) -> u8 {
    match a {
        Accessed::No => 0,
        Accessed::Yes => 1,
    }
}

/// The byte an access-byte build produces from one choice of every option:
/// each field OR-ed into its own, non-overlapping bit range.
pub open spec fn access_encode(
    p: Present,
    l: PrivilegeLevel,
    s: SegmentType,
    e: Executable,
    d: SegmentDirection,
    rw: ReadableWriteable,
    a: Accessed,
) -> u8 {
    (present_bits(p) << 7) | (dpl_bits(l) << 5) | (segment_type_bits(s) << 4)
        | (executable_bits(e) << 3) | (direction_bits(d) << 2)
        | (readable_writeable_bits(rw) << 1) | accessed_bits(a)
}

/// One semantic field per bit range of an access byte, recovered by decoding.
#[derive(Clone, Copy, Debug, PartialEq, Eq)]
pub struct AccessFields {
    pub present: Present,
    pub dpl: PrivilegeLevel,
    pub system: SegmentType,
    pub executable: Executable,
    pub direction: SegmentDirection,
    pub readable_writeable: ReadableWriteable,
    pub accessed: Accessed,
}

pub open spec fn dpl_of_bits(b: u8) -> PrivilegeLevel {
    if b == 0 {
        PrivilegeLevel::Ring0
    } else if b == 1 {
        PrivilegeLevel::Ring1
    } else if b == 2 {
        PrivilegeLevel::Ring2
    } else {
        PrivilegeLevel::Ring3
    }
}

/// What decoding an access byte yields: each field masked and shifted back.
pub open spec fn access_decode(v: u8) -> AccessFields {
    AccessFields {
        present: if (v >> 7) & 1 == 1 { Present::Yes } else { Present::No },
        dpl: dpl_of_bits((v >> 5) & 3),
        system: if (v >> 4) & 1 == 1 { SegmentType::CodeOrData } else { SegmentType::SystemSegment },
        executable: if (v >> 3) & 1 == 1 { Executable::Code } else { Executable::Data },
        direction: if (v >> 2) & 1 == 1 {
            SegmentDirection::ConformingOrExpandDown
        } else {
            SegmentDirection::Normal
        },
        readable_writeable: if (v >> 1) & 1 == 1 { ReadableWriteable::Yes } else { ReadableWriteable::No },
        accessed: if v & 1 == 1 { Accessed::Yes } else { Accessed::No },
    }
}

impl AccessByte {
    /// Decode the byte back into its semantic fields. Used for diagnostics;
    /// exactly inverts the builder's encoding.
    pub fn decode(&self) -> (r: AccessFields)
        ensures
            r == access_decode(self.0),
    {
        let val = self.0;
        AccessFields {
            present: if (val >> 7) & 1 == 1 { Present::Yes } else { Present::No },
            dpl: match (val >> 5) & 3 {
                0 => PrivilegeLevel::Ring0,
                1 => PrivilegeLevel::Ring1,
                2 => PrivilegeLevel::Ring2,
                _ => PrivilegeLevel::Ring3,
            },
            system: if (val >> 4) & 1 == 1 { SegmentType::CodeOrData } else { SegmentType::SystemSegment },
            executable: if (val >> 3) & 1 == 1 { Executable::Code } else { Executable::Data },
            direction: if (val >> 2) & 1 == 1 {
                SegmentDirection::ConformingOrExpandDown
            } else {
                SegmentDirection::Normal
            },
            readable_writeable: if (val >> 1) & 1 == 1 {
                ReadableWriteable::Yes
            } else {
                ReadableWriteable::No
            },
            accessed: if val & 1 == 1 { Accessed::Yes } else { Accessed::No },
        }
    }
}

/// Single-use builder for an access byte: starts from zero bits, each setter
/// ORs its option into a fixed range, `build` hands the finished byte out.
pub struct AccessByteBuilder {
    pub value: u8,
}

impl AccessByteBuilder {
    pub fn new() -> (r: Self)
        ensures
            r.value == 0,
    {
        Self { value: 0 }
    }

    pub fn present(self, p: Present) -> (r: Self)
        ensures
            r.value == self.value | (present_bits(p) << 7),
    {
        let bits: u8 = match p {
            Present::No => 0,
            Present::Yes => 1,
        };
        Self { value: self.value | (bits << 7) }
    }

    pub fn dpl(self, level: PrivilegeLevel) -> (r: Self)
        ensures
            r.value == self.value | (dpl_bits(level) << 5),
    {
        let bits: u8 = match level {
            PrivilegeLevel::Ring0 => 0,
            PrivilegeLevel::Ring1 => 1,
            PrivilegeLevel::Ring2 => 2,
            PrivilegeLevel::Ring3 => 3,
        };
        Self { value: self.value | (bits << 5) }
    }

    pub fn system(self, s: SegmentType) -> (r: Self)
        ensures
            r.value == self.value | (segment_type_bits(s) << 4),
    {
        let bits: u8 = match s {
            SegmentType::SystemSegment => 0,
            SegmentType::CodeOrData => 1,
        };
        Self { value: self.value | (bits << 4) }
    }

    pub fn executable(self, ex: Executable) -> (r: Self)
        ensures
            r.value == self.value | (executable_bits(ex) << 3),
    {
        let bits: u8 = match ex {
            Executable::Data => 0,
            Executable::Code => 1,
        };
        Self { value: self.value | (bits << 3) }
    }

    pub fn direction(self, d: SegmentDirection) -> (r: Self)
        ensures
            r.value == self.value | (direction_bits(d) << 2),
    {
        let bits: u8 = match d {
            SegmentDirection::Normal => 0,
            SegmentDirection::ConformingOrExpandDown => 1,
        };
        Self { value: self.value | (bits << 2) }
    }

    pub fn readable_writeable(self, rw: ReadableWriteable) -> (r: Self)
        ensures
            r.value == self.value | (readable_writeable_bits(rw) << 1),
    {
        let bits: u8 = match rw {
            ReadableWriteable::No => 0,
            ReadableWriteable::Yes => 1,
        };
        Self { value: self.value | (bits << 1) }
    }

    pub fn accessed(self, a: Accessed) -> (r: Self)
        ensures
            r.value == self.value | accessed_bits(a),
    {
        let bits: u8 = match a {
            Accessed::No => 0,
            Accessed::Yes => 1,
        };
        Self { value: self.value | bits }
    }

    pub fn build(self) -> (r: AccessByte)
        ensures
            r.0 == self.value,
    {
        AccessByte(self.value)
    }
}

/// Bit-level facts behind the round trip: OR-ing bounded fields into disjoint
/// ranges starting from zero, then masking and shifting each range back out,
/// recovers every field.
proof fn lemma_access_bits(pv: u8, lv: u8, sv: u8, ev: u8, dv: u8, rv: u8, av: u8)
    by (bit_vector)
    requires
        pv <= 1,
        lv <= 3,
        sv <= 1,
        ev <= 1,
        dv <= 1,
        rv <= 1,
        av <= 1,
    ensures
        0u8 | (pv << 7) | (lv << 5) | (sv << 4) | (ev << 3) | (dv << 2) | (rv << 1) | av
            == (pv << 7) | (lv << 5) | (sv << 4) | (ev << 3) | (dv << 2) | (rv << 1) | av,
        (((pv << 7) | (lv << 5) | (sv << 4) | (ev << 3) | (dv << 2) | (rv << 1) | av) >> 7) & 1
            == pv,
        (((pv << 7) | (lv << 5) | (sv << 4) | (ev << 3) | (dv << 2) | (rv << 1) | av) >> 5) & 3
            == lv,
        (((pv << 7) | (lv << 5) | (sv << 4) | (ev << 3) | (dv << 2) | (rv << 1) | av) >> 4) & 1
            == sv,
        (((pv << 7) | (lv << 5) | (sv << 4) | (ev << 3) | (dv << 2) | (rv << 1) | av) >> 3) & 1
            == ev,
        (((pv << 7) | (lv << 5) | (sv << 4) | (ev << 3) | (dv << 2) | (rv << 1) | av) >> 2) & 1
            == dv,
        (((pv << 7) | (lv << 5) | (sv << 4) | (ev << 3) | (dv << 2) | (rv << 1) | av) >> 1) & 1
            == rv,
        ((pv << 7) | (lv << 5) | (sv << 4) | (ev << 3) | (dv << 2) | (rv << 1) | av) & 1 == av,
{
}

/// Round-trip law: decoding an encoded access byte recovers the exact
/// semantic configuration, for every combination of option values.
pub proof fn lemma_access_round_trip(
    p: Present,
    l: PrivilegeLevel,
    s: SegmentType,
    e: Executable,
    d: SegmentDirection,
    rw: ReadableWriteable,
    a: Accessed,
)
    ensures
        access_decode(access_encode(p, l, s, e, d, rw, a)) == (AccessFields {
            present: p,
            dpl: l,
            system: s,
            executable: e,
            direction: d,
            readable_writeable: rw,
            accessed: a,
        }),
{
    let pv = present_bits(p);
    let lv = dpl_bits(l);
    let sv = segment_type_bits(s);
    let ev = executable_bits(e);
    let dv = direction_bits(d);
    let rv = readable_writeable_bits(rw);
    let av = accessed_bits(a);
    lemma_access_bits(pv, lv, sv, ev, dv, rv, av);
}

/// A builder on which every setter was applied once yields exactly the
/// encoding of the chosen options; stated over the canonical setter order.
pub proof fn lemma_builder_chain_encodes(
    p: Present,
    l: PrivilegeLevel,
    s: SegmentType,
    e: Executable,
    d: SegmentDirection,
    rw: ReadableWriteable,
    a: Accessed,
)
    ensures
        0u8 | (present_bits(p) << 7) | (dpl_bits(l) << 5) | (segment_type_bits(s) << 4)
            | (executable_bits(e) << 3) | (direction_bits(d) << 2)
            | (readable_writeable_bits(rw) << 1) | accessed_bits(a)
            == access_encode(p, l, s, e, d, rw, a),
{
    lemma_access_bits(
        present_bits(p),
        dpl_bits(l),
        segment_type_bits(s),
        executable_bits(e),
        direction_bits(d),
        readable_writeable_bits(rw),
        accessed_bits(a),
    );
}

} // verus!
