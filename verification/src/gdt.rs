//! Segment descriptors, the Global Descriptor Table and its register value.
//!
//! A segment descriptor packs a 32-bit base (split low-16 / middle-8 /
//! high-8) and a 20-bit limit (low 16 bits here, top nibble inside the
//! flags/limit byte) into the exact eight-byte layout the CPU expects; the
//! TSS variant extends it with an upper 32-bit base word and a reserved zero
//! word. The table places the mandatory all-zero null descriptor first, and
//! the selector of the k-th entry is its byte offset, k times eight.

use vstd::prelude::*;

use crate::access_byte::{
    AccessByte, AccessByteBuilder, Accessed, Executable, Present, PrivilegeLevel,
    ReadableWriteable, SegmentDirection, SegmentType,
};
use crate::flags_limit::{FlagsLimitBuilder, FlagsLimitByte, Granularity, LongMode, OperandSize};

verus! {

/// Entries the table holds, in their fixed order.
pub const GDT_ENTRY_COUNT: usize = 5;

/// Bytes one segment descriptor occupies.
pub const SEGMENT_DESCRIPTOR_BYTES: usize = 8;

/// One eight-byte memory-segment descriptor, fields in CPU order.
#[derive(Clone, Copy, Debug, PartialEq, Eq)]
pub struct SegmentDescriptor {
    /// Lower 16 bits of the segment limit.
    pub limit_low: u16,
    /// Lower 16 bits of the base.
    pub base_low: u16,
    /// Next 8 bits of the base.
    pub base_middle: u8,
    pub access_byte: AccessByte,
    /// Flags (4 bits) and upper 4 bits of the limit.
    pub flags_limit: FlagsLimitByte,
    /// Final 8 bits of the base.
    pub base_high: u8,
}

impl SegmentDescriptor {
    /// The eight bytes of this descriptor as the CPU reads them, low byte of
    /// each 16-bit field first, with no padding anywhere.
    pub open spec fn bytes(self) -> Seq<u8> {
        seq![
            (self.limit_low & 0xFF) as u8,
            (self.limit_low >> 8) as u8,
            (self.base_low & 0xFF) as u8,
            (self.base_low >> 8) as u8,
            self.base_middle,
            self.access_byte.0,
            self.flags_limit.0,
            self.base_high,
        ]
    }

    /// The 32-bit base this descriptor's three split fields reassemble to.
    pub open spec fn decoded_base_spec(self) -> u32 {
        ((self.base_high as u32) << 24) | ((self.base_middle as u32) << 16)
            | (self.base_low as u32)
    }

    /// The 20-bit limit this descriptor's split fields reassemble to: the
    /// nibble packed into the flags/limit byte above the low 16 bits.
    pub open spec fn decoded_limit_spec(self) -> u32 {
        (((self.flags_limit.0 & 0x0F) as u32) << 16) | (self.limit_low as u32)
    }

    /// Pack a base and the low part of a limit into descriptor fields. The
    /// limit's top nibble travels inside `flags`; the caller puts it there.
    pub fn new(base: u32, limit: u32, access: AccessByte, flags: FlagsLimitByte) -> (r: Self)
        ensures
            r.limit_low == (limit & 0xFFFF) as u16,
            r.base_low == (base & 0xFFFF) as u16,
            r.base_middle == ((base >> 16) & 0xFF) as u8,
            r.access_byte == access,
            r.flags_limit == flags,
            r.base_high == ((base >> 24) & 0xFF) as u8,
    {
        Self {
            limit_low: (limit & 0xFFFF) as u16,
            base_low: (base & 0xFFFF) as u16,
            base_middle: ((base >> 16) & 0xFF) as u8,
            access_byte: access,
            flags_limit: flags,
            base_high: ((base >> 24) & 0xFF) as u8,
        }
    }

    /// The descriptor's bytes, for inspection and diagnostics.
    pub fn to_bytes(&self) -> (r: Vec<u8>)
        ensures
            r@ == self.bytes(),
    {
        let mut r: Vec<u8> = Vec::new();
        r.push((self.limit_low & 0xFF) as u8);
        r.push((self.limit_low >> 8) as u8);
        r.push((self.base_low & 0xFF) as u8);
        r.push((self.base_low >> 8) as u8);
        r.push(self.base_middle);
        r.push(self.access_byte.0);
        r.push(self.flags_limit.0);
        r.push(self.base_high);
        proof {
            assert(r@ =~= self.bytes());
        }
        r
    }

    /// Reassemble the split base. Diagnostic decode.
    pub fn decoded_base(&self) -> (r: u32)
        ensures
            r == self.decoded_base_spec(),
    {
        ((self.base_high as u32) << 24) | ((self.base_middle as u32) << 16)
            | (self.base_low as u32)
    }

    /// Reassemble the split 20-bit limit. Diagnostic decode.
    pub fn decoded_limit(&self) -> (r: u32)
        ensures
            r == self.decoded_limit_spec(),
    {
        (((self.flags_limit.0 & 0x0F) as u32) << 16) | (self.limit_low as u32)
    }
}

/// Packing round trip for the base: splitting any 32-bit base across the
/// three descriptor fields and reassembling them reproduces it.
pub proof fn lemma_base_split_round_trip(base: u32, limit: u32, access: AccessByte, flags: FlagsLimitByte)
    ensures
        (SegmentDescriptor {
            limit_low: (limit & 0xFFFF) as u16,
            base_low: (base & 0xFFFF) as u16,
            base_middle: ((base >> 16) & 0xFF) as u8,
            access_byte: access,
            flags_limit: flags,
            base_high: ((base >> 24) & 0xFF) as u8,
        }).decoded_base_spec() == base,
{
    assert(((((base >> 24) & 0xFF) as u8 as u32) << 24) | ((((base >> 16) & 0xFF) as u8 as u32)
        << 16) | (((base & 0xFFFF) as u16) as u32) == base) by (bit_vector);
}

/// Packing round trip for the limit: for any 20-bit limit whose top nibble
/// sits in the flags/limit byte, reassembly reproduces it.
pub proof fn lemma_limit_split_round_trip(base: u32, limit: u32, access: AccessByte, flags: FlagsLimitByte)
    requires
        limit <= 0xFFFFF,
        flags.0 & 0x0F == ((limit >> 16) as u8) & 0x0F,
    ensures
        (SegmentDescriptor {
            limit_low: (limit & 0xFFFF) as u16,
            base_low: (base & 0xFFFF) as u16,
            base_middle: ((base >> 16) & 0xFF) as u8,
            access_byte: access,
            flags_limit: flags,
            base_high: ((base >> 24) & 0xFF) as u8,
        }).decoded_limit_spec() == limit,
{
    let nib = flags.0 & 0x0F;
    assert(nib == ((limit >> 16) as u8) & 0x0F && limit <= 0xFFFFF ==> ((nib as u32) << 16) | (((
    limit & 0xFFFF) as u16) as u32) == limit) by (bit_vector);
    assert(flags.0 & 0x0F == nib);
}

/// One sixteen-byte task-state-segment descriptor with a 64-bit base: the
/// segment-descriptor fields, then the upper 32 base bits and a reserved
/// zero word.
#[derive(Clone, Copy, Debug, PartialEq, Eq)]
pub struct TSSDescriptor {
    /// Lower 16 bits of the segment limit.
    pub limit_low: u16,
    /// Lower 16 bits of the base.
    pub base_low: u16,
    /// Next 8 bits of the base.
    pub base_middle: u8,
    pub access_byte: AccessByte,
    /// Flags (4 bits) and upper 4 bits of the limit.
    pub flags_limit: FlagsLimitByte,
    /// Bits 24..32 of the base.
    pub base_high: u8,
    /// Upper 32 bits of the base.
    pub base_upper: u32,
    /// Reserved, always zero.
    pub reserved: u32,
}

impl TSSDescriptor {
    /// The sixteen bytes of this descriptor as the CPU reads them.
    pub open spec fn bytes(self) -> Seq<u8> {
        seq![
            (self.limit_low & 0xFF) as u8,
            (self.limit_low >> 8) as u8,
            (self.base_low & 0xFF) as u8,
            (self.base_low >> 8) as u8,
            self.base_middle,
            self.access_byte.0,
            self.flags_limit.0,
            self.base_high,
            (self.base_upper & 0xFF) as u8,
            ((self.base_upper >> 8) & 0xFF) as u8,
            ((self.base_upper >> 16) & 0xFF) as u8,
            ((self.base_upper >> 24) & 0xFF) as u8,
            (self.reserved & 0xFF) as u8,
            ((self.reserved >> 8) & 0xFF) as u8,
            ((self.reserved >> 16) & 0xFF) as u8,
            ((self.reserved >> 24) & 0xFF) as u8,
        ]
    }

    /// The 64-bit base this descriptor's four split fields reassemble to.
    pub open spec fn decoded_base_spec(self) -> u64 {
        ((self.base_upper as u64) << 32) | ((self.base_high as u64) << 24)
            | ((self.base_middle as u64) << 16) | (self.base_low as u64)
    }

    /// Pack a 64-bit base and the low part of a limit into the descriptor
    /// fields; the reserved word is always zero.
    pub fn new(base: u64, limit: u32, access: AccessByte, flags: FlagsLimitByte) -> (r: Self)
        ensures
            r.limit_low == (limit & 0xFFFF) as u16,
            r.base_low == (base & 0xFFFF) as u16,
            r.base_middle == ((base >> 16) & 0xFF) as u8,
            r.access_byte == access,
            r.flags_limit == flags,
            r.base_high == ((base >> 24) & 0xFF) as u8,
            r.base_upper == ((base >> 32) & 0xFFFFFFFF) as u32,
            r.reserved == 0,
    {
        Self {
            limit_low: (limit & 0xFFFF) as u16,
            base_low: (base & 0xFFFF) as u16,
            base_middle: ((base >> 16) & 0xFF) as u8,
            access_byte: access,
            flags_limit: flags,
            base_high: ((base >> 24) & 0xFF) as u8,
            base_upper: ((base >> 32) & 0xFFFFFFFF) as u32,
            reserved: 0,
        }
    }

    /// The descriptor's bytes, for inspection and diagnostics.
    pub fn to_bytes(&self) -> (r: Vec<u8>)
        ensures
            r@ == self.bytes(),
    {
        let mut r: Vec<u8> = Vec::new();
        r.push((self.limit_low & 0xFF) as u8);
        r.push((self.limit_low >> 8) as u8);
        r.push((self.base_low & 0xFF) as u8);
        r.push((self.base_low >> 8) as u8);
        r.push(self.base_middle);
        r.push(self.access_byte.0);
        r.push(self.flags_limit.0);
        r.push(self.base_high);
        r.push((self.base_upper & 0xFF) as u8);
        r.push(((self.base_upper >> 8) & 0xFF) as u8);
        r.push(((self.base_upper >> 16) & 0xFF) as u8);
        r.push(((self.base_upper >> 24) & 0xFF) as u8);
        r.push((self.reserved & 0xFF) as u8);
        r.push(((self.reserved >> 8) & 0xFF) as u8);
        r.push(((self.reserved >> 16) & 0xFF) as u8);
        r.push(((self.reserved >> 24) & 0xFF) as u8);
        proof {
            assert(r@ =~= self.bytes());
        }
        r
    }

    /// Reassemble the split 64-bit base. Diagnostic decode.
    pub fn decoded_base(&self) -> (r: u64)
        ensures
            r == self.decoded_base_spec(),
    {
        ((self.base_upper as u64) << 32) | ((self.base_high as u64) << 24)
            | ((self.base_middle as u64) << 16) | (self.base_low as u64)
    }
}

/// Packing round trip for the 64-bit base: splitting any base across the
/// four TSS-descriptor fields and reassembling them reproduces it.
pub proof fn lemma_tss_base_split_round_trip(base: u64, limit: u32, access: AccessByte, flags: FlagsLimitByte)
    ensures
        (TSSDescriptor {
            limit_low: (limit & 0xFFFF) as u16,
            base_low: (base & 0xFFFF) as u16,
            base_middle: ((base >> 16) & 0xFF) as u8,
            access_byte: access,
            flags_limit: flags,
            base_high: ((base >> 24) & 0xFF) as u8,
            base_upper: ((base >> 32) & 0xFFFFFFFF) as u32,
            reserved: 0,
        }).decoded_base_spec() == base,
{
    assert(((((base >> 32) & 0xFFFFFFFF) as u32 as u64) << 32) | ((((base >> 24) & 0xFF) as u8
        as u64) << 24) | ((((base >> 16) & 0xFF) as u8 as u64) << 16) | (((base & 0xFFFF) as u16)
        as u64) == base) by (bit_vector);
}

/// The bytes of a run of descriptors, laid out one after another with no
/// padding between them.
pub open spec fn table_bytes(entries: Seq<SegmentDescriptor>) -> Seq<u8>
    decreases entries.len(),
{
    if entries.len() == 0 {
        Seq::empty()
    } else {
        entries.first().bytes() + table_bytes(entries.drop_first())
    }
}

/// A run of descriptors occupies eight bytes per entry.
pub proof fn lemma_table_bytes_len(entries: Seq<SegmentDescriptor>)
    ensures
        table_bytes(entries).len() == 8 * entries.len(),
    decreases entries.len(),
{
    if entries.len() > 0 {
        lemma_table_bytes_len(entries.drop_first());
    }
}

/// The selector of the k-th entry of a table, its byte offset from the base:
/// k times the descriptor size.
pub open spec fn selector_of(k: int) -> int {
    8 * k
}

/// Selector law: for any ordered run of descriptors, the eight table bytes
/// starting at the k-th entry's selector are exactly that entry's bytes — so
/// loading selector k addresses entry k.
pub proof fn lemma_selector(entries: Seq<SegmentDescriptor>, k: int)
    requires
        0 <= k < entries.len(),
    ensures
        table_bytes(entries).subrange(selector_of(k), selector_of(k) + 8) == entries[k].bytes(),
    decreases k,
{
    lemma_table_bytes_len(entries);
    lemma_table_bytes_len(entries.drop_first());
    if k == 0 {
        assert(table_bytes(entries).subrange(0, 8) =~= entries[0].bytes());
    } else {
        lemma_selector(entries.drop_first(), k - 1);
        assert(table_bytes(entries).subrange(selector_of(k), selector_of(k) + 8)
            =~= table_bytes(entries.drop_first()).subrange(selector_of(k - 1), selector_of(k - 1) + 8));
    }
}

/// The final GDT: the mandatory null descriptor first, then the four
/// code/data segments in their fixed, documented order.
#[derive(Clone, Copy, Debug, PartialEq, Eq)]
pub struct GlobalDescriptorTable {
    pub null: SegmentDescriptor,
    pub kernel_code: SegmentDescriptor,
    pub kernel_data: SegmentDescriptor,
    pub user_code: SegmentDescriptor,
    pub user_data: SegmentDescriptor,
}

/// The all-zero descriptor that must occupy the table's first slot.
pub open spec fn null_segment_descriptor() -> SegmentDescriptor {
    SegmentDescriptor {
        limit_low: 0,
        base_low: 0,
        base_middle: 0,
        access_byte: AccessByte(0),
        flags_limit: FlagsLimitByte(0),
        base_high: 0,
    }
}

impl GlobalDescriptorTable {
    /// The table's entries in selector order.
    pub open spec fn entries(self) -> Seq<SegmentDescriptor> {
        seq![self.null, self.kernel_code, self.kernel_data, self.user_code, self.user_data]
    }

    /// The table's bytes as the CPU reads them.
    pub open spec fn bytes(self) -> Seq<u8> {
        table_bytes(self.entries())
    }

    /// Assemble a table from the four working segments. The null slot is not
    /// a parameter: whatever the configuration, it is the all-zero
    /// descriptor, so that a loaded null selector faults predictably.
    pub fn new(
        kernel_code: SegmentDescriptor,
        kernel_data: SegmentDescriptor,
        user_code: SegmentDescriptor,
        user_data: SegmentDescriptor,
    ) -> (r: Self)
        ensures
            r.null == null_segment_descriptor(),
            r.kernel_code == kernel_code,
            r.kernel_data == kernel_data,
            r.user_code == user_code,
            r.user_data == user_data,
    {
        proof {
            lemma_gdt_constants();
        }
        let null = SegmentDescriptor::new(
            0,
            0,
            AccessByteBuilder::new().build(),
            FlagsLimitBuilder::new().limit(0).build(),
        );
        Self { null, kernel_code, kernel_data, user_code, user_data }
    }

    /// The table's bytes, for inspection and diagnostics.
    pub fn to_bytes(&self) -> (r: Vec<u8>)
        ensures
            r@ == self.bytes(),
    {
        let mut r = self.null.to_bytes();
        let mut e = self.kernel_code.to_bytes();
        r.append(&mut e);
        let mut e = self.kernel_data.to_bytes();
        r.append(&mut e);
        let mut e = self.user_code.to_bytes();
        r.append(&mut e);
        let mut e = self.user_data.to_bytes();
        r.append(&mut e);
        proof {
            lemma_gdt_bytes_unfold(*self);
        }
        r
    }
}

/// The table's bytes are its five entries' bytes, one run after another.
pub proof fn lemma_gdt_bytes_unfold(gdt: GlobalDescriptorTable)
    ensures
        gdt.bytes() == gdt.null.bytes() + gdt.kernel_code.bytes() + gdt.kernel_data.bytes()
            + gdt.user_code.bytes() + gdt.user_data.bytes(),
{
    let e0 = gdt.entries();
    let e1 = e0.drop_first();
    let e2 = e1.drop_first();
    let e3 = e2.drop_first();
    let e4 = e3.drop_first();
    let e5 = e4.drop_first();
    assert(e1 =~= seq![gdt.kernel_code, gdt.kernel_data, gdt.user_code, gdt.user_data]);
    assert(e2 =~= seq![gdt.kernel_data, gdt.user_code, gdt.user_data]);
    assert(e3 =~= seq![gdt.user_code, gdt.user_data]);
    assert(e4 =~= seq![gdt.user_data]);
    assert(e5 =~= Seq::<SegmentDescriptor>::empty());
    assert(table_bytes(e5) == Seq::<u8>::empty());
    assert(table_bytes(e4) == gdt.user_data.bytes() + table_bytes(e5));
    assert(table_bytes(e3) == gdt.user_code.bytes() + table_bytes(e4));
    assert(table_bytes(e2) == gdt.kernel_data.bytes() + table_bytes(e3));
    assert(table_bytes(e1) == gdt.kernel_code.bytes() + table_bytes(e2));
    assert(table_bytes(e0) == gdt.null.bytes() + table_bytes(e1));
    assert(gdt.bytes() =~= gdt.null.bytes() + gdt.kernel_code.bytes() + gdt.kernel_data.bytes()
        + gdt.user_code.bytes() + gdt.user_data.bytes());
}

/// A five-entry table occupies forty bytes.
pub proof fn lemma_gdt_bytes_len(gdt: GlobalDescriptorTable)
    ensures
        gdt.bytes().len() == 40,
{
    lemma_table_bytes_len(gdt.entries());
}

/// Selector law at the table: the selector of entry k is k times eight, and
/// the eight bytes at that offset are entry k's bytes.
pub proof fn lemma_gdt_selector(gdt: GlobalDescriptorTable, k: int)
    requires
        0 <= k < 5,
    ensures
        selector_of(k) == 8 * k,
        gdt.bytes().subrange(8 * k, 8 * k + 8) == gdt.entries()[k].bytes(),
{
    lemma_selector(gdt.entries(), k);
}

/// Null-descriptor law: in any table whose first slot holds the all-zero
/// descriptor — every table the assembly here builds — the first eight table
/// bytes are zero.
pub proof fn lemma_gdt_null_entry_zero(gdt: GlobalDescriptorTable)
    requires
        gdt.null == null_segment_descriptor(),
    ensures
        forall|i: int| 0 <= i < 8 ==> gdt.bytes()[i] == 0,
{
    lemma_gdt_constants();
    lemma_gdt_selector(gdt, 0);
    assert forall|i: int| 0 <= i < 8 implies gdt.bytes()[i] == 0 by {
        assert(gdt.bytes()[i] == gdt.bytes().subrange(0, 8)[i]);
        assert(gdt.entries()[0].bytes()[i] == 0);
    }
}

/// Constant bit identities the table assembly rests on: what the builder
/// chains of the boot configuration evaluate to, and the split fields of the
/// zero and four-gigabyte segments.
proof fn lemma_gdt_constants()
    by (bit_vector)
    ensures
        (0u8 & 0xF0) | ((0u8 & 0x0F) & 0x0F) == 0,
        (0u32 & 0xFFFF) as u16 == 0,
        ((0u32 >> 16) & 0xFF) as u8 == 0,
        ((0u32 >> 24) & 0xFF) as u8 == 0,
        (0u16 & 0xFF) as u8 == 0,
        (0u16 >> 8) as u8 == 0,
        (0xFFFFu16 & 0xFF) as u8 == 0xFF,
        (0xFFFFu16 >> 8) as u8 == 0xFF,
        (0xFFFFFu32 & 0xFFFF) as u16 == 0xFFFF,
        0u8 | (1u8 << 7) | (0u8 << 5) | (1u8 << 4) | (1u8 << 3) | (0u8 << 2) | (1u8 << 1) | 0u8
            == 0x9A,
        0u8 | (1u8 << 7) | (0u8 << 5) | (1u8 << 4) | (0u8 << 3) | (0u8 << 2) | (1u8 << 1) | 0u8
            == 0x92,
        0u8 | (1u8 << 7) | (3u8 << 5) | (1u8 << 4) | (1u8 << 3) | (0u8 << 2) | (1u8 << 1) | 0u8
            == 0xFA,
        0u8 | (1u8 << 7) | (3u8 << 5) | (1u8 << 4) | (0u8 << 3) | (0u8 << 2) | (1u8 << 1) | 0u8
            == 0xF2,
        (((0u8 | (1u8 << 7) | (1u8 << 6)) & !(1u8 << 5)) & 0xF0) | ((0xFu8 & 0x0F) & 0x0F)
            == 0xCF,
{
}

/// A flat four-gigabyte segment of the boot configuration: base zero, limit
/// `0xFFFFF` in 4 KiB pages, with the given access and flags/limit bytes.
pub open spec fn flat_segment(access: u8, flags: u8) -> SegmentDescriptor {
    SegmentDescriptor {
        limit_low: 0xFFFF,
        base_low: 0,
        base_middle: 0,
        access_byte: AccessByte(access),
        flags_limit: FlagsLimitByte(flags),
        base_high: 0,
    }
}

/// The null descriptor encodes to eight zero bytes, whatever build history
/// produced the table around it.
pub proof fn lemma_null_descriptor_bytes()
    ensures
        null_segment_descriptor().bytes() == seq![0u8, 0, 0, 0, 0, 0, 0, 0],
{
    lemma_gdt_constants();
    assert(null_segment_descriptor().bytes() =~= seq![0u8, 0, 0, 0, 0, 0, 0, 0]);
}

/// The exact bytes of a flat boot segment: limit low bytes all set, base
/// bytes zero, then the access and flags/limit bytes in place.
pub proof fn lemma_flat_segment_bytes(access: u8, flags: u8)
    ensures
        flat_segment(access, flags).bytes() == seq![0xFFu8, 0xFF, 0, 0, 0, access, flags, 0],
{
    lemma_gdt_constants();
    assert(flat_segment(access, flags).bytes() =~= seq![0xFFu8, 0xFF, 0, 0, 0, access, flags, 0]);
}

/// The register-descriptor value the GDT load instruction consumes: the
/// table's byte size minus one, and its linear base address. It does not own
/// the table's memory — the table must live at a stable address for the
/// machine's lifetime.
#[derive(Clone, Copy, Debug, PartialEq, Eq)]
pub struct GDTR {
    pub limit: u16,
    pub base: u64,
}

impl GDTR {
    /// Build the register value for a table at the given linear address.
    /// Register-size law: the limit is the table's byte size minus one — an
    /// off-by-one here makes the last entry unreachable or reads past the
    /// table. Only the table's size and address matter, never its contents.
    pub fn new(gdt: &GlobalDescriptorTable, base: u64) -> (r: GDTR)
        ensures
            r.limit as int == gdt.bytes().len() - 1,
            r.base == base,
    {
        proof {
            lemma_gdt_bytes_len(*gdt);
        }
        GDTR { limit: (GDT_ENTRY_COUNT * SEGMENT_DESCRIPTOR_BYTES - 1) as u16, base }
    }
}

/// Build the boot GDT: the null descriptor, then flat four-gigabyte kernel
/// code, kernel data, user code and user data segments — code and data
/// readable/writeable, page granularity, 32-bit operand size, long mode off.
/// The caller gives the table a permanent address and loads it; the bytes
/// are fixed here.
pub fn gdt_init() -> (gdt: GlobalDescriptorTable)
    ensures
        gdt.null == null_segment_descriptor(),
        gdt.kernel_code == flat_segment(0x9A, 0xCF),
        gdt.kernel_data == flat_segment(0x92, 0xCF),
        gdt.user_code == flat_segment(0xFA, 0xCF),
        gdt.user_data == flat_segment(0xF2, 0xCF),
{
    proof {
        lemma_gdt_constants();
    }
    let kernel_code = SegmentDescriptor::new(
        0x00000000,
        0xFFFFF,
        AccessByteBuilder::new()
            .present(Present::Yes)
            .dpl(PrivilegeLevel::Ring0)
            .system(SegmentType::CodeOrData)
            .executable(Executable::Code)
            .direction(SegmentDirection::Normal)
            .readable_writeable(ReadableWriteable::Yes)
            .accessed(Accessed::No)
            .build(),
        FlagsLimitBuilder::new()
            .granularity(Granularity::Page4KiB)
            .db(OperandSize::Bit32)
            .long_mode(LongMode::Disabled)
            .limit(0xF)
            .build(),
    );

    let kernel_data = SegmentDescriptor::new(
        0x00000000,
        0xFFFFF,
        AccessByteBuilder::new()
            .present(Present::Yes)
            .dpl(PrivilegeLevel::Ring0)
            .system(SegmentType::CodeOrData)
            .executable(Executable::Data)
            .direction(SegmentDirection::Normal)
            .readable_writeable(ReadableWriteable::Yes)
            .accessed(Accessed::No)
            .build(),
        FlagsLimitBuilder::new()
            .granularity(Granularity::Page4KiB)
            .db(OperandSize::Bit32)
            .long_mode(LongMode::Disabled)
            .limit(0xF)
            .build(),
    );

    let user_code = SegmentDescriptor::new(
        0x00000000,
        0xFFFFF,
        AccessByteBuilder::new()
            .present(Present::Yes)
            .dpl(PrivilegeLevel::Ring3)
            .system(SegmentType::CodeOrData)
            .executable(Executable::Code)
            .direction(SegmentDirection::Normal)
            .readable_writeable(ReadableWriteable::Yes)
            .accessed(Accessed::No)
            .build(),
        FlagsLimitBuilder::new()
            .granularity(Granularity::Page4KiB)
            .db(OperandSize::Bit32)
            .long_mode(LongMode::Disabled)
            .limit(0xF)
            .build(),
    );

    let user_data = SegmentDescriptor::new(
        0x00000000,
        0xFFFFF,
        AccessByteBuilder::new()
            .present(Present::Yes)
            .dpl(PrivilegeLevel::Ring3)
            .system(SegmentType::CodeOrData)
            .executable(Executable::Data)
            .direction(SegmentDirection::Normal)
            .readable_writeable(ReadableWriteable::Yes)
            .accessed(Accessed::No)
            .build(),
        FlagsLimitBuilder::new()
            .granularity(Granularity::Page4KiB)
            .db(OperandSize::Bit32)
            .long_mode(LongMode::Disabled)
            .limit(0xF)
            .build(),
    );

    GlobalDescriptorTable::new(kernel_code, kernel_data, user_code, user_data)
}

} // verus!
