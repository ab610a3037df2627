use x86_tables::access_byte::AccessByte;
use x86_tables::flags_limit::FlagsLimitByte;
use x86_tables::gdt::{gdt_init, SegmentDescriptor, TSSDescriptor, GDTR};

#[test]
fn kernel_code_descriptor_bytes() {
    let gdt = gdt_init();
    assert_eq!(gdt.kernel_code.to_bytes(), vec![0xFF, 0xFF, 0x00, 0x00, 0x00, 0x9A, 0xCF, 0x00]);
}

#[test]
fn null_descriptor_is_eight_zero_bytes() {
    let gdt = gdt_init();
    assert_eq!(gdt.null.to_bytes(), vec![0; 8]);
    assert_eq!(&gdt.to_bytes()[0..8], &[0; 8]);
}

#[test]
fn table_entry_bytes_sit_at_their_selectors() {
    let gdt = gdt_init();
    let table = gdt.to_bytes();
    assert_eq!(table.len(), 40);
    let entries = [gdt.null, gdt.kernel_code, gdt.kernel_data, gdt.user_code, gdt.user_data];
    for (k, entry) in entries.iter().enumerate() {
        let selector = k * 8;
        assert_eq!(&table[selector..selector + 8], entry.to_bytes().as_slice());
    }
}

#[test]
fn boot_table_access_bytes() {
    let gdt = gdt_init();
    assert_eq!(gdt.kernel_code.access_byte.0, 0x9A);
    assert_eq!(gdt.kernel_data.access_byte.0, 0x92);
    assert_eq!(gdt.user_code.access_byte.0, 0xFA);
    assert_eq!(gdt.user_data.access_byte.0, 0xF2);
    assert_eq!(gdt.kernel_code.flags_limit.0, 0xCF);
    assert_eq!(gdt.kernel_data.flags_limit.0, 0xCF);
    assert_eq!(gdt.user_code.flags_limit.0, 0xCF);
    assert_eq!(gdt.user_data.flags_limit.0, 0xCF);
}

#[test]
fn gdtr_limit_is_byte_size_minus_one() {
    // Five entries of eight bytes each.
    let gdt = gdt_init();
    let gdtr = GDTR::new(&gdt, 0x1000);
    assert_eq!(gdtr.limit, 39);
    assert_eq!(gdtr.base, 0x1000);
}

#[test]
fn base_split_round_trip() {
    let bases = [0u32, 1, 0xFFFF, 0x12345678, 0xDEADBEEF, 0xFFFFFFFF];
    for &base in &bases {
        let d = SegmentDescriptor::new(base, 0, AccessByte(0), FlagsLimitByte(0));
        assert_eq!(d.decoded_base(), base);
    }
}

#[test]
fn limit_split_round_trip() {
    let limits = [0u32, 1, 0xFFFF, 0x10000, 0xABCDE, 0xFFFFF];
    for &limit in &limits {
        let nibble = ((limit >> 16) & 0xF) as u8;
        let flags = FlagsLimitByte(nibble);
        let d = SegmentDescriptor::new(0, limit, AccessByte(0), flags);
        assert_eq!(d.decoded_limit(), limit);
    }
}

#[test]
fn segment_descriptor_field_split() {
    let d = SegmentDescriptor::new(0x12345678, 0xABCDE, AccessByte(0x9A), FlagsLimitByte(0xCA));
    assert_eq!(d.limit_low, 0xBCDE);
    assert_eq!(d.base_low, 0x5678);
    assert_eq!(d.base_middle, 0x34);
    assert_eq!(d.base_high, 0x12);
    assert_eq!(d.to_bytes(), vec![0xDE, 0xBC, 0x78, 0x56, 0x34, 0x9A, 0xCA, 0x12]);
}

#[test]
fn tss_base_split_round_trip() {
    let bases = [0u64, 1, 0xFFFF_FFFF, 0x1122_3344_5566_7788, u64::MAX];
    for &base in &bases {
        let d = TSSDescriptor::new(base, 0, AccessByte(0), FlagsLimitByte(0));
        assert_eq!(d.decoded_base(), base);
    }
}

#[test]
fn tss_descriptor_reserved_word_is_zero() {
    let d = TSSDescriptor::new(u64::MAX, 0xFFFFF, AccessByte(0x89), FlagsLimitByte(0x0F));
    assert_eq!(d.reserved, 0);
    let bytes = d.to_bytes();
    assert_eq!(bytes.len(), 16);
    assert_eq!(&bytes[12..16], &[0, 0, 0, 0]);
}
