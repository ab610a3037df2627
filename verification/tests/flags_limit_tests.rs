use x86_tables::flags_limit::{
    FlagsLimitBuilder, FlagsLimitByte, FlagsLimitFields, Granularity, LongMode, OperandSize,
};

fn build(g: Granularity, db: OperandSize, m: LongMode, limit: u8) -> FlagsLimitByte {
    FlagsLimitBuilder::new().granularity(g).db(db).long_mode(m).limit(limit).build()
}

#[test]
fn kernel_segment_flags_byte_is_0xcf() {
    let b = build(Granularity::Page4KiB, OperandSize::Bit32, LongMode::Disabled, 0xF);
    assert_eq!(b.0, 0xCF);
}

#[test]
fn default_builder_keeps_limit_nibble_0xf() {
    assert_eq!(FlagsLimitBuilder::new().build().0, 0x0F);
}

#[test]
fn limit_nibble_zero_gives_zero_byte() {
    assert_eq!(FlagsLimitBuilder::new().limit(0).build().0, 0);
}

#[test]
fn enabling_long_mode_clears_operand_size_bit() {
    let b = build(Granularity::Byte, OperandSize::Bit32, LongMode::Enabled, 0);
    assert_eq!((b.0 >> 6) & 1, 0);
    assert_eq!((b.0 >> 5) & 1, 1);
}

#[test]
fn reserved_bit_never_set() {
    let grans = [Granularity::Byte, Granularity::Page4KiB];
    let dbs = [OperandSize::Bit16, OperandSize::Bit32];
    let modes = [LongMode::Disabled, LongMode::Enabled];
    for &g in &grans {
        for &db in &dbs {
            for &m in &modes {
                for limit in 0..=255u8 {
                    let b = build(g, db, m, limit);
                    assert_eq!((b.0 >> 4) & 1, 0);
                }
            }
        }
    }
}

#[test]
fn round_trip_every_valid_combination() {
    let grans = [Granularity::Byte, Granularity::Page4KiB];
    let dbs = [OperandSize::Bit16, OperandSize::Bit32];
    let modes = [LongMode::Disabled, LongMode::Enabled];
    for &g in &grans {
        for &db in &dbs {
            for &m in &modes {
                if matches!(m, LongMode::Enabled) && matches!(db, OperandSize::Bit32) {
                    // Enabling long mode clears the operand-size flag, so this
                    // combination is invalid and cannot survive a round trip.
                    continue;
                }
                for limit in 0..=0xFu8 {
                    let b = build(g, db, m, limit);
                    let expected = FlagsLimitFields { granularity: g, db, long_mode: m, limit };
                    assert_eq!(b.decode(), expected);
                }
            }
        }
    }
}

#[test]
fn limit_setter_masks_to_low_nibble() {
    let b = build(Granularity::Byte, OperandSize::Bit16, LongMode::Disabled, 0xAB);
    assert_eq!(b.decode().limit, 0xB);
}
