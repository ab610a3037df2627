//! The flags/limit byte of a GDT segment descriptor.
//!
//! High nibble holds the flags, low nibble the top 4 bits of the 20-bit limit:
//! ```text
//! 7 6  5 4        3..0
//! G DB L Reserved limit[19:16]
//! ```
//! G: granularity (byte vs. 4 KiB units); DB: operand size (16- vs. 32-bit);
//! L: long mode — setting it clears DB; the reserved bit is never set.

use vstd::prelude::*;

verus! {

/// The finished flags/limit byte of a segment descriptor.
#[derive(Clone, Copy, Debug, PartialEq, Eq)]
pub struct FlagsLimitByte(pub u8);

#[derive(Clone, Copy, Debug, PartialEq, Eq)]
pub enum Granularity {
    Byte,
    Page4KiB,
}

#[derive(Clone, Copy, Debug, PartialEq, Eq)]
pub enum OperandSize {
    Bit16,
    Bit32,
}

#[derive(Clone, Copy, Debug, PartialEq, Eq)]
pub enum LongMode {
    Disabled,
    Enabled,
}

pub open spec fn granularity_bits(g: Granularity) -> u8 {
    match g {
        Granularity::Byte => 0,
        Granularity::Page4KiB => 1,
    }
}

pub open spec fn operand_size_bits(db: OperandSize) -> u8 {
    match db {
        OperandSize::Bit16 => 0,
        OperandSize::Bit32 => 1,
    }
}

pub open spec fn long_mode_bits(m: LongMode) -> u8 {
    match m {
        LongMode::Disabled => 0,
        LongMode::Enabled => 1,
    }
}

/// The operand-size bit that actually lands in the byte: enabling long mode
/// forces it clear, whatever was requested.
pub open spec fn effective_operand_size_bits(db: OperandSize, m: LongMode) -> u8 {
    if m is Enabled {
        0
    } else {
        operand_size_bits(db)
    }
}

/// The byte a flags/limit build produces from one choice of every flag and a
/// limit nibble: flags in the high nibble, the nibble in the low one, the
/// reserved bit always clear.
pub open spec fn flags_limit_encode(g: Granularity, db: OperandSize, m: LongMode, v: u8) -> u8 {
    (granularity_bits(g) << 7) | (effective_operand_size_bits(db, m) << 6)
        | (long_mode_bits(m) << 5) | (v & 0x0F)
}

/// One semantic field per bit range of a flags/limit byte.
#[derive(Clone, Copy, Debug, PartialEq, Eq)]
pub struct FlagsLimitFields {
    pub granularity: Granularity,
    pub db: OperandSize,
    pub long_mode: LongMode,
    pub limit: u8,
}

/// What decoding a flags/limit byte yields: each flag read off its bit, the
/// limit nibble masked back out.
pub open spec fn flags_limit_decode(v: u8) -> FlagsLimitFields {
    FlagsLimitFields {
        granularity: if (v >> 7) & 1 == 1 { Granularity::Page4KiB } else { Granularity::Byte },
        db: if (v >> 6) & 1 == 1 { OperandSize::Bit32 } else { OperandSize::Bit16 },
        long_mode: if (v >> 5) & 1 == 1 { LongMode::Enabled } else { LongMode::Disabled },
        limit: v & 0x0F,
    }
}

impl FlagsLimitByte {
    /// Decode the byte back into its semantic fields. Used for diagnostics;
    /// exactly inverts the builder's encoding.
    pub fn decode(&self) -> (r: FlagsLimitFields)
        ensures
            r == flags_limit_decode(self.0),
    {
        FlagsLimitFields {
            granularity: if (self.0 >> 7) & 1 == 1 { Granularity::Page4KiB } else { Granularity::Byte },
            db: if (self.0 >> 6) & 1 == 1 { OperandSize::Bit32 } else { OperandSize::Bit16 },
            long_mode: if (self.0 >> 5) & 1 == 1 { LongMode::Enabled } else { LongMode::Disabled },
            limit: self.0 & 0x0F,
        }
    }
}

/// What setting the long-mode flag does to the flags bits: enabling it sets
/// bit 5 and clears bit 6; disabling clears bit 5.
pub open spec fn long_mode_apply(flags: u8, m: LongMode) -> u8 {
    match m {
        LongMode::Enabled => (flags | (1u8 << 5)) & !(1u8 << 6),
        LongMode::Disabled => flags & !(1u8 << 5),
    }
}

/// Single-use builder for a flags/limit byte. The limit nibble defaults to
/// `0xF`; each flag setter ORs its bit in, except long mode, which also keeps
/// the operand-size bit consistent with it.
pub struct FlagsLimitBuilder {
    pub flags: u8,
    pub limit: u8,
}

impl FlagsLimitBuilder {
    pub fn new() -> (r: Self)
        ensures
            r.flags == 0,
            r.limit == 0xF,
    {
        Self { flags: 0, limit: 0xF }
    }

    pub fn granularity(self, g: Granularity) -> (r: Self)
        ensures
            r.flags == self.flags | (granularity_bits(g) << 7),
            r.limit == self.limit,
    {
        let bits: u8 = match g {
            Granularity::Byte => 0,
            Granularity::Page4KiB => 1,
        };
        Self { flags: self.flags | (bits << 7), limit: self.limit }
    }

    pub fn db(self, db: OperandSize) -> (r: Self)
        ensures
            r.flags == self.flags | (operand_size_bits(db) << 6),
            r.limit == self.limit,
    {
        let bits: u8 = match db {
            OperandSize::Bit16 => 0,
            OperandSize::Bit32 => 1,
        };
        Self { flags: self.flags | (bits << 6), limit: self.limit }
    }

    pub fn long_mode(self, m: LongMode) -> (r: Self)
        ensures
            r.flags == long_mode_apply(self.flags, m),
            r.limit == self.limit,
    {
        match m {
            LongMode::Enabled => Self {
                flags: (self.flags | (1u8 << 5)) & !(1u8 << 6),
                limit: self.limit,
            },
            LongMode::Disabled => Self { flags: self.flags & !(1u8 << 5), limit: self.limit },
        }
    }

    pub fn limit(self, val: u8) -> (r: Self)
        ensures
            r.limit == val & 0x0F,
            r.flags == self.flags,
    {
        Self { flags: self.flags, limit: val & 0x0F }
    }

    pub fn build(self) -> (r: FlagsLimitByte)
        ensures
            r.0 == (self.flags & 0xF0) | (self.limit & 0x0F),
    {
        FlagsLimitByte((self.flags & 0xF0) | (self.limit & 0x0F))
    }
}

/// Bit-level facts behind the flags/limit round trip: the canonical setter
/// chain lands each flag in its own bit with the reserved bit clear, and each
/// bit range masks back out to the field that went in.
proof fn lemma_flags_limit_bits(gv: u8, dv: u8, ev: u8, lv: u8, v: u8)
    by (bit_vector)
    requires
        gv <= 1,
        dv <= 1,
        ev <= 1,
        lv <= 1,
    ensures
        (((0u8 | (gv << 7) | (dv << 6)) | (1u8 << 5)) & !(1u8 << 6)) & 0xF0
            == (gv << 7) | (0u8 << 6) | (1u8 << 5),
        ((0u8 | (gv << 7) | (dv << 6)) & !(1u8 << 5)) & 0xF0 == (gv << 7) | (dv << 6) | (0u8 << 5),
        ((gv << 7) | (ev << 6) | (lv << 5)) | ((v & 0x0F) & 0x0F)
            == (gv << 7) | (ev << 6) | (lv << 5) | (v & 0x0F),
        (((gv << 7) | (ev << 6) | (lv << 5) | (v & 0x0F)) >> 7) & 1 == gv,
        (((gv << 7) | (ev << 6) | (lv << 5) | (v & 0x0F)) >> 6) & 1 == ev,
        (((gv << 7) | (ev << 6) | (lv << 5) | (v & 0x0F)) >> 5) & 1 == lv,
        ((gv << 7) | (ev << 6) | (lv << 5) | (v & 0x0F)) & 0x0F == v & 0x0F,
        (((gv << 7) | (ev << 6) | (lv << 5) | (v & 0x0F)) >> 4) & 1 == 0,
        v <= 0x0F ==> v & 0x0F == v,
{
}

/// The canonical builder chain — granularity, operand size, long mode, limit,
/// build — yields exactly the encoding of the chosen options.
pub proof fn lemma_flags_builder_chain_encodes(g: Granularity, db: OperandSize, m: LongMode, v: u8)
    ensures
        (long_mode_apply(0u8 | (granularity_bits(g) << 7) | (operand_size_bits(db) << 6), m)
            & 0xF0) | ((v & 0x0F) & 0x0F) == flags_limit_encode(g, db, m, v),
{
    lemma_flags_limit_bits(
        granularity_bits(g),
        operand_size_bits(db),
        effective_operand_size_bits(db, m),
        long_mode_bits(m),
        v,
    );
}

/// The reserved bit of an encoded flags/limit byte is never set.
pub proof fn lemma_flags_reserved_bit_clear(g: Granularity, db: OperandSize, m: LongMode, v: u8)
    ensures
        (flags_limit_encode(g, db, m, v) >> 4) & 1 == 0,
{
    lemma_flags_limit_bits(
        granularity_bits(g),
        operand_size_bits(db),
        effective_operand_size_bits(db, m),
        long_mode_bits(m),
        v,
    );
}

/// Round-trip law: decoding an encoded flags/limit byte recovers the exact
/// configuration, for every valid combination — one where long mode, when
/// enabled, is not combined with a 32-bit operand size (enabling long mode
/// clears that flag), and the limit nibble fits in four bits.
pub proof fn lemma_flags_limit_round_trip(g: Granularity, db: OperandSize, m: LongMode, v: u8)
    requires
        !(m is Enabled && db is Bit32),
        v <= 0x0F,
    ensures
        flags_limit_decode(flags_limit_encode(g, db, m, v)) == (FlagsLimitFields {
            granularity: g,
            db,
            long_mode: m,
            limit: v,
        }),
{
    lemma_flags_limit_bits(
        granularity_bits(g),
        operand_size_bits(db),
        effective_operand_size_bits(db, m),
        long_mode_bits(m),
        v,
    );
}

} // verus!
