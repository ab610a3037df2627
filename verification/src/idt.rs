//! Interrupt-gate descriptors, the Interrupt Descriptor Table and its
//! register value.
//!
//! A gate entry packs a handler's offset (split low-16 / high-16), the code
//! segment selector the handler runs under, and the type-attributes byte
//! into the exact layout the CPU expects. The table holds one entry per CPU
//! vector; at boot every one of its 256 slots routes to the single stub
//! handler through the kernel code segment at ring 0.

use vstd::prelude::*;

use crate::type_attributes::{
    GateType, Present, PrivilegeLevel, TypeAttributes, TypeAttributesBuilder,
};

verus! {

/// One entry per CPU vector.
pub const MAX_X86_IDT_ENTRIES: usize = 256;

/// Selector of the kernel code segment, the second GDT entry.
pub const KERNEL_CODE_CS: u16 = 0x08;

/// Bytes one gate entry occupies.
pub const IDT_ENTRY_BYTES: usize = 8;

/// One interrupt-gate descriptor, fields in CPU order.
#[derive(Clone, Copy, Debug, PartialEq, Eq)]
pub struct IDTEntry {
    /// Lower 16 bits of the handler offset.
    pub offset_1: u16,
    /// Code segment selector the handler runs under.
    pub selector: u16,
    /// Always zero.
    pub zero: u8,
    pub type_attributes: TypeAttributes,
    /// Upper 16 bits of the handler offset.
    pub offset_2: u16,
}

impl IDTEntry {
    /// The eight bytes of this gate as the CPU reads them, low byte of each
    /// 16-bit field first, with no padding anywhere.
    pub open spec fn bytes(self) -> Seq<u8> {
        seq![
            (self.offset_1 & 0xFF) as u8,
            (self.offset_1 >> 8) as u8,
            (self.selector & 0xFF) as u8,
            (self.selector >> 8) as u8,
            self.zero,
            self.type_attributes.0,
            (self.offset_2 & 0xFF) as u8,
            (self.offset_2 >> 8) as u8,
        ]
    }

    /// The 32-bit handler offset the two split fields reassemble to.
    pub open spec fn decoded_offset_spec(self) -> u32 {
        ((self.offset_2 as u32) << 16) | (self.offset_1 as u32)
    }

    /// Pack a handler offset, selector and type-attributes byte into a gate.
    pub fn new(handler: u32, selector: u16, type_attributes: TypeAttributes) -> (r: Self)
        ensures
            r.offset_1 == (handler & 0xFFFF) as u16,
            r.selector == selector,
            r.zero == 0,
            r.type_attributes == type_attributes,
            r.offset_2 == ((handler >> 16) & 0xFFFF) as u16,
    {
        Self {
            offset_1: (handler & 0xFFFF) as u16,
            selector,
            zero: 0,
            type_attributes,
            offset_2: ((handler >> 16) & 0xFFFF) as u16,
        }
    }

    /// This entry's bytes, for inspection and diagnostics.
    pub fn to_bytes(&self) -> (r: Vec<u8>)
        ensures
            r@ == self.bytes(),
    {
        let mut r: Vec<u8> = Vec::new();
        r.push((self.offset_1 & 0xFF) as u8);
        r.push((self.offset_1 >> 8) as u8);
        r.push((self.selector & 0xFF) as u8);
        r.push((self.selector >> 8) as u8);
        r.push(self.zero);
        r.push(self.type_attributes.0);
        r.push((self.offset_2 & 0xFF) as u8);
        r.push((self.offset_2 >> 8) as u8);
        proof {
            assert(r@ =~= self.bytes());
        }
        r
    }

    /// Reassemble the split handler offset. Diagnostic decode.
    pub fn decoded_offset(&self) -> (r: u32)
        ensures
            r == self.decoded_offset_spec(),
    {
        ((self.offset_2 as u32) << 16) | (self.offset_1 as u32)
    }
}

/// Packing round trip for the handler offset: splitting any 32-bit offset
/// across an entry's two fields and reassembling them reproduces it.
pub proof fn lemma_offset_split_round_trip(handler: u32, selector: u16, ta: TypeAttributes)
    ensures
        (IDTEntry {
            offset_1: (handler & 0xFFFF) as u16,
            selector,
            zero: 0,
            type_attributes: ta,
            offset_2: ((handler >> 16) & 0xFFFF) as u16,
        }).decoded_offset_spec() == handler,
{
    assert(((((handler >> 16) & 0xFFFF) as u16 as u32) << 16) | (((handler & 0xFFFF) as u16)
        as u32) == handler) by (bit_vector);
}

/// The bytes of a run of gate entries, one after another with no padding.
pub open spec fn idt_table_bytes(entries: Seq<IDTEntry>) -> Seq<u8>
    decreases entries.len(),
{
    if entries.len() == 0 {
        Seq::empty()
    } else {
        entries.first().bytes() + idt_table_bytes(entries.drop_first())
    }
}

/// A run of gate entries occupies eight bytes per entry.
pub proof fn lemma_idt_table_bytes_len(entries: Seq<IDTEntry>)
    ensures
        idt_table_bytes(entries).len() == 8 * entries.len(),
    decreases entries.len(),
{
    if entries.len() > 0 {
        lemma_idt_table_bytes_len(entries.drop_first());
    }
}

/// The final IDT: one gate per CPU vector, in vector order.
#[derive(Debug, PartialEq, Eq)]
pub struct InterruptDescriptorTable {
    pub entries: Vec<IDTEntry>,
}

impl InterruptDescriptorTable {
    /// A complete table holds exactly one entry per CPU vector.
    pub open spec fn wf(self) -> bool {
        self.entries@.len() == MAX_X86_IDT_ENTRIES
    }

    /// The table's bytes as the CPU reads them.
    pub open spec fn bytes(self) -> Seq<u8> {
        idt_table_bytes(self.entries@)
    }
}

/// What every boot-time IDT slot holds: the given handler offset split
/// across the entry, the kernel code selector, and a present ring-0 32-bit
/// interrupt gate (type-attributes byte `0x8E`).
pub open spec fn boot_gate_spec(handler: u32) -> IDTEntry {
    IDTEntry {
        offset_1: (handler & 0xFFFF) as u16,
        selector: KERNEL_CODE_CS,
        zero: 0,
        type_attributes: TypeAttributes(0x8E),
        offset_2: ((handler >> 16) & 0xFFFF) as u16,
    }
}

/// Constant bit identities the table assembly rests on: the boot gate's
/// builder chain evaluates to `0x8E`, whose present bit is set.
proof fn lemma_idt_constants()
    by (bit_vector)
    ensures
        0u8 | (1u8 << 7) | (0u8 << 5) | 0xEu8 == 0x8E,
        (0x8Eu8 >> 7) & 1 == 1,
{
}

/// Build the boot IDT: all 256 vectors wired to the one stub handler at the
/// given offset, through the kernel code segment, at ring 0, as present
/// 32-bit interrupt gates. The caller gives the table a permanent address
/// and loads it; the bytes are fixed here.
pub fn idt_init(handler: u32) -> (idt: InterruptDescriptorTable)
    ensures
        idt.wf(),
        forall|i: int|
            0 <= i < MAX_X86_IDT_ENTRIES ==> idt.entries@[i] == boot_gate_spec(handler),
{
    let mut entries: Vec<IDTEntry> = Vec::new();
    let mut i: usize = 0;
    while i < MAX_X86_IDT_ENTRIES
        invariant
            i <= MAX_X86_IDT_ENTRIES,
            entries@.len() == i,
            forall|j: int| 0 <= j < i ==> entries@[j] == boot_gate_spec(handler),
        decreases MAX_X86_IDT_ENTRIES - i,
    {
        let attr = TypeAttributesBuilder::new()
            .present(Present::Yes)
            .dpl(PrivilegeLevel::Ring0)
            .gate_type(GateType::InterruptGate32)
            .build();
        proof {
            lemma_idt_constants();
        }
        entries.push(IDTEntry::new(handler, KERNEL_CODE_CS, attr));
        i += 1;
    }
    InterruptDescriptorTable { entries }
}

/// Completeness law: a table in which every slot holds the boot gate — every
/// table `idt_init` builds — has exactly 256 entries, and every entry's
/// present bit is set.
pub proof fn lemma_idt_completeness(idt: InterruptDescriptorTable, handler: u32)
    requires
        idt.wf(),
        forall|i: int|
            0 <= i < MAX_X86_IDT_ENTRIES ==> idt.entries@[i] == boot_gate_spec(handler),
    ensures
        idt.entries@.len() == 256,
        forall|i: int|
            0 <= i < idt.entries@.len() ==> ((#[trigger] idt.entries@[i]).type_attributes.0 >> 7)
                & 1 == 1,
{
    lemma_idt_constants();
}

/// The register-descriptor value the IDT load instruction consumes: the
/// table's byte size minus one, and its linear base address. It does not own
/// the table's memory — the table must live at a stable address for the
/// machine's lifetime.
#[derive(Clone, Copy, Debug, PartialEq, Eq)]
pub struct IDTR {
    pub limit: u16,
    pub base: u32,
}

impl IDTR {
    /// Build the register value for a table at the given linear address.
    /// Register-size law: the limit is the table's byte size minus one, for
    /// any table size the 16-bit register can express. Only the table's size
    /// and address matter, never its contents.
    pub fn new(idt: &InterruptDescriptorTable, base: u32) -> (r: IDTR)
        requires
            1 <= idt.entries@.len() <= 8192,
        ensures
            r.limit as int == idt.bytes().len() - 1,
            r.base == base,
    {
        proof {
            lemma_idt_table_bytes_len(idt.entries@);
        }
        IDTR { limit: (idt.entries.len() * IDT_ENTRY_BYTES - 1) as u16, base }
    }
}

} // verus!
