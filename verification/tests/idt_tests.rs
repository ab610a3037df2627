use x86_tables::idt::{idt_init, IDTEntry, IDTR, KERNEL_CODE_CS, MAX_X86_IDT_ENTRIES};
use x86_tables::type_attributes::TypeAttributes;

#[test]
fn idt_has_256_entries_all_present() {
    let idt = idt_init(0x1234_5678);
    assert_eq!(idt.entries.len(), 256);
    for entry in &idt.entries {
        assert_eq!((entry.type_attributes.0 >> 7) & 1, 1);
    }
}

#[test]
fn every_slot_routes_to_the_stub_through_kernel_code() {
    let handler: u32 = 0xCAFE_BABE;
    let idt = idt_init(handler);
    for entry in &idt.entries {
        assert_eq!(entry.offset_1, 0xBABE);
        assert_eq!(entry.offset_2, 0xCAFE);
        assert_eq!(entry.selector, KERNEL_CODE_CS);
        assert_eq!(entry.zero, 0);
        assert_eq!(entry.type_attributes.0, 0x8E);
        assert_eq!(entry.decoded_offset(), handler);
    }
}

#[test]
fn idtr_limit_is_byte_size_minus_one() {
    // 256 entries of eight bytes each.
    let idt = idt_init(0);
    let idtr = IDTR::new(&idt, 0x2000);
    assert_eq!(idtr.limit, 2047);
    assert_eq!(idtr.base, 0x2000);
}

#[test]
fn max_entry_count_is_every_cpu_vector() {
    assert_eq!(MAX_X86_IDT_ENTRIES, 256);
}

#[test]
fn gate_entry_byte_layout() {
    let e = IDTEntry::new(0xDEAD_BEEF, 0x08, TypeAttributes(0x8E));
    assert_eq!(
        e.to_bytes(),
        vec![0xEF, 0xBE, 0x08, 0x00, 0x00, 0x8E, 0xAD, 0xDE],
    );
}

#[test]
fn offset_split_round_trip() {
    let offsets = [0u32, 1, 0xFFFF, 0x10000, 0x89ABCDEF, u32::MAX];
    for &offset in &offsets {
        let e = IDTEntry::new(offset, 0x08, TypeAttributes(0x8E));
        assert_eq!(e.decoded_offset(), offset);
    }
}
