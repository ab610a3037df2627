use x86_tables::access_byte::{
    AccessByte, AccessByteBuilder, AccessFields, Accessed, Executable, Present, PrivilegeLevel,
    ReadableWriteable, SegmentDirection, SegmentType,
};

fn build(
    p: Present,
    l: PrivilegeLevel,
    s: SegmentType,
    e: Executable,
    d: SegmentDirection,
    rw: ReadableWriteable,
    a: Accessed,
) -> AccessByte {
    AccessByteBuilder::new()
        .present(p)
        .dpl(l)
        .system(s)
        .executable(e)
        .direction(d)
        .readable_writeable(rw)
        .accessed(a)
        .build()
}

#[test]
fn kernel_code_access_byte_is_0x9a() {
    let b = build(
        Present::Yes,
        PrivilegeLevel::Ring0,
        SegmentType::CodeOrData,
        Executable::Code,
        SegmentDirection::Normal,
        ReadableWriteable::Yes,
        Accessed::No,
    );
    assert_eq!(b.0, 0x9A);
}

#[test]
fn empty_builder_gives_zero_byte() {
    assert_eq!(AccessByteBuilder::new().build().0, 0);
}

#[test]
fn decode_recovers_kernel_code_fields() {
    let f = AccessByte(0x9A).decode();
    assert_eq!(f.present, Present::Yes);
    assert_eq!(f.dpl, PrivilegeLevel::Ring0);
    assert_eq!(f.system, SegmentType::CodeOrData);
    assert_eq!(f.executable, Executable::Code);
    assert_eq!(f.direction, SegmentDirection::Normal);
    assert_eq!(f.readable_writeable, ReadableWriteable::Yes);
    assert_eq!(f.accessed, Accessed::No);
}

#[test]
fn access_round_trip_every_option_combination() {
    let presents = [Present::No, Present::Yes];
    let dpls = [
        PrivilegeLevel::Ring0,
        PrivilegeLevel::Ring1,
        PrivilegeLevel::Ring2,
        PrivilegeLevel::Ring3,
    ];
    let systems = [SegmentType::SystemSegment, SegmentType::CodeOrData];
    let execs = [Executable::Data, Executable::Code];
    let dirs = [SegmentDirection::Normal, SegmentDirection::ConformingOrExpandDown];
    let rws = [ReadableWriteable::No, ReadableWriteable::Yes];
    let accs = [Accessed::No, Accessed::Yes];
    for &p in &presents {
        for &l in &dpls {
            for &s in &systems {
                for &e in &execs {
                    for &d in &dirs {
                        for &rw in &rws {
                            for &a in &accs {
                                let byte = build(p, l, s, e, d, rw, a);
                                let expected = AccessFields {
                                    present: p,
                                    dpl: l,
                                    system: s,
                                    executable: e,
                                    direction: d,
                                    readable_writeable: rw,
                                    accessed: a,
                                };
                                assert_eq!(byte.decode(), expected);
                            }
                        }
                    }
                }
            }
        }
    }
}

#[test]
fn user_data_access_byte_is_0xf2() {
    let b = build(
        Present::Yes,
        PrivilegeLevel::Ring3,
        SegmentType::CodeOrData,
        Executable::Data,
        SegmentDirection::Normal,
        ReadableWriteable::Yes,
        Accessed::No,
    );
    assert_eq!(b.0, 0xF2);
}
