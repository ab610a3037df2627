//! The type-attributes byte of an IDT gate descriptor.
//!
//! Bit layout, fixed by the CPU:
//! ```text
//! 7 6 5  4        3..0
//! P DPL  Reserved gate type
//! ```
//! P: present; DPL: privilege level required to invoke this handler;
//! the reserved bit is zero; the low nibble selects a gate type.

use vstd::prelude::*;

verus! {

#[derive(Clone, Copy, Debug, PartialEq, Eq)]
pub enum Present {
    No,
    Yes,
}

#[derive(Clone, Copy, Debug, PartialEq, Eq)]
pub enum PrivilegeLevel {
    Ring0,
    Ring1,
    Ring2,
    Ring3,
}

#[derive(Clone, Copy, Debug, PartialEq, Eq)]
pub enum SegmentType {
    SystemSegment,
    CodeOrData,
}

#[derive(Clone, Copy, Debug, PartialEq, Eq)]
pub enum GateType {
    TaskGate,
    InterruptGate16,
    TrapGate16,
    InterruptGate32,
    TrapGate32,
}

/// The finished type-attributes byte of an IDT gate.
#[derive(Clone, Copy, Debug, PartialEq, Eq)]
pub struct TypeAttributes(pub u8);

pub open spec fn present_bits(p: Present) -> u8 {
    match p {
        Present::No => 0,
        Present::Yes => 1,
    }
}

pub open spec fn dpl_bits(l: PrivilegeLevel) -> u8 {
    match l {
        PrivilegeLevel::Ring0 => 0,
        PrivilegeLevel::Ring1 => 1,
        PrivilegeLevel::Ring2 => 2,
        PrivilegeLevel::Ring3 => 3,
    }
}

/// The CPU-defined nibble of each gate type.
pub open spec fn gate_type_bits(g: GateType) -> u8 {
    match g {
        GateType::TaskGate => 0x5,
        GateType::InterruptGate16 => 0x6,
        GateType::TrapGate16 => 0x7,
        GateType::InterruptGate32 => 0xE,
        GateType::TrapGate32 => 0xF,
    }
}

/// Which gate type a low nibble decodes to; `None` for a nibble the CPU gives
/// no gate meaning.
pub open spec fn gate_type_of_bits(b: u8) -> Option<GateType> {
    if b == 0x5 {
        Some(GateType::TaskGate)
    } else if b == 0x6 {
        Some(GateType::InterruptGate16)
    } else if b == 0x7 {
        Some(GateType::TrapGate16)
    } else if b == 0xE {
        Some(GateType::InterruptGate32)
    } else if b == 0xF {
        Some(GateType::TrapGate32)
    } else {
        None
    }
}

/// The byte a type-attributes build produces from one choice of every option.
pub open spec fn type_attributes_encode(p: Present, l: PrivilegeLevel, g: GateType) -> u8 {
    (present_bits(p) << 7) | (dpl_bits(l) << 5) | gate_type_bits(g)
}

/// One semantic field per bit range of a type-attributes byte.
#[derive(Clone, Copy, Debug, PartialEq, Eq)]
pub struct TypeAttributesFields {
    pub present: Present,
    pub dpl: PrivilegeLevel,
    pub gate_type: GateType,
}

pub open spec fn dpl_of_bits(b: u8) -> PrivilegeLevel {
    if b == 0 {
        PrivilegeLevel::Ring0
    } else if b == 1 {
        PrivilegeLevel::Ring1
    } else if b == 2 {
        PrivilegeLevel::Ring2
    } else {
        PrivilegeLevel::Ring3
    }
}

/// What decoding a type-attributes byte yields: `None` when the reserved bit
/// is set or its low nibble is meaningless, else each field masked back out.
pub open spec fn type_attributes_decode(v: u8) -> Option<TypeAttributesFields> {
    if (v >> 4) & 1 == 1 {
        None
    } else {
        match gate_type_of_bits(v & 0x0F) {
            Some(g) => Some(
                TypeAttributesFields {
                    present: if (v >> 7) & 1 == 1 { Present::Yes } else { Present::No },
                    dpl: dpl_of_bits((v >> 5) & 3),
                    gate_type: g,
                },
            ),
            None => None,
        }
    }
}

impl TypeAttributes {
    /// Decode the byte back into its semantic fields; `None` when the byte is
    /// no valid gate encoding. Exactly inverts the builder's encoding.
    pub fn decode(&self) -> (r: Option<TypeAttributesFields>)
        ensures
            r == type_attributes_decode(self.0),
    {
        let v = self.0;
        if (v >> 4) & 1 == 1 {
            return None;
        }
        let gate = match v & 0x0F {
            0x5 => Some(GateType::TaskGate),
            0x6 => Some(GateType::InterruptGate16),
            0x7 => Some(GateType::TrapGate16),
            0xE => Some(GateType::InterruptGate32),
            0xF => Some(GateType::TrapGate32),
            _ => None,
        };
        match gate {
            Some(g) => Some(
                TypeAttributesFields {
                    present: if (v >> 7) & 1 == 1 { Present::Yes } else { Present::No },
                    dpl: match (v >> 5) & 3 {
                        0 => PrivilegeLevel::Ring0,
                        1 => PrivilegeLevel::Ring1,
                        2 => PrivilegeLevel::Ring2,
                        _ => PrivilegeLevel::Ring3,
                    },
                    gate_type: g,
                },
            ),
            None => None,
        }
    }
}

/// Single-use builder for a type-attributes byte: starts from zero bits, each
/// setter ORs its option into a fixed range, `build` hands the byte out.
pub struct TypeAttributesBuilder {
    pub value: u8,
}

impl TypeAttributesBuilder {
    pub fn new() -> (r: Self)
        ensures
            r.value == 0,
    {
        Self { value: 0 }
    }

    pub fn present(self, p: Present) -> (r: Self)
        ensures
            r.value == self.value | (present_bits(p) << 7),
    {
        let bits: u8 = match p {
            Present::No => 0,
            Present::Yes => 1,
        };
        Self { value: self.value | (bits << 7) }
    }

    pub fn dpl(self, level: PrivilegeLevel) -> (r: Self)
        ensures
            r.value == self.value | (dpl_bits(level) << 5),
    {
        let bits: u8 = match level {
            PrivilegeLevel::Ring0 => 0,
            PrivilegeLevel::Ring1 => 1,
            PrivilegeLevel::Ring2 => 2,
            PrivilegeLevel::Ring3 => 3,
        };
        Self { value: self.value | (bits << 5) }
    }

    pub fn gate_type(self, gate: GateType) -> (r: Self)
        ensures
            r.value == self.value | gate_type_bits(gate),
    {
        let bits: u8 = match gate {
            GateType::TaskGate => 0x5,
            GateType::InterruptGate16 => 0x6,
            GateType::TrapGate16 => 0x7,
            GateType::InterruptGate32 => 0xE,
            GateType::TrapGate32 => 0xF,
        };
        Self { value: self.value | bits }
    }

    pub fn build(self) -> (r: TypeAttributes)
        ensures
            r.0 == self.value,
    {
        TypeAttributes(self.value)
    }
}

/// Bit-level facts behind this byte's round trip: present and DPL land above
/// its low nibble, which passes through untouched; the reserved bit stays
/// clear.
proof fn lemma_type_attributes_bits(pv: u8, lv: u8, gv: u8)
    by (bit_vector)
    requires
        pv <= 1,
        lv <= 3,
        gv <= 0xF,
    ensures
        0u8 | (pv << 7) | (lv << 5) | gv == (pv << 7) | (lv << 5) | gv,
        (((pv << 7) | (lv << 5) | gv) >> 7) & 1 == pv,
        (((pv << 7) | (lv << 5) | gv) >> 5) & 3 == lv,
        ((pv << 7) | (lv << 5) | gv) & 0x0F == gv & 0x0F,
        gv <= 0xF ==> gv & 0x0F == gv,
        (((pv << 7) | (lv << 5) | gv) >> 4) & 1 == (gv >> 4) & 1,
        gv <= 0xF ==> (gv >> 4) & 1 == 0,
{
}

/// Round-trip law: decoding an encoded type-attributes byte recovers the
/// exact configuration, for every combination of option values.
pub proof fn lemma_type_attributes_round_trip(p: Present, l: PrivilegeLevel, g: GateType)
    ensures
        type_attributes_decode(type_attributes_encode(p, l, g)) == Some(
            TypeAttributesFields { present: p, dpl: l, gate_type: g },
        ),
{
    lemma_type_attributes_bits(present_bits(p), dpl_bits(l), gate_type_bits(g));
}

/// A builder on which every setter was applied once yields exactly the
/// encoding of the chosen options; stated over the canonical setter order.
pub proof fn lemma_type_attributes_builder_chain_encodes(p: Present, l: PrivilegeLevel, g: GateType)
    ensures
        0u8 | (present_bits(p) << 7) | (dpl_bits(l) << 5) | gate_type_bits(g)
            == type_attributes_encode(p, l, g),
{
    lemma_type_attributes_bits(present_bits(p), dpl_bits(l), gate_type_bits(g));
}

} // verus!
