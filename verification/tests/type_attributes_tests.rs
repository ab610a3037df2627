use x86_tables::type_attributes::{
    GateType, Present, PrivilegeLevel, TypeAttributes, TypeAttributesBuilder,
    TypeAttributesFields,
};

fn build(p: Present, l: PrivilegeLevel, g: GateType) -> TypeAttributes {
    TypeAttributesBuilder::new().present(p).dpl(l).gate_type(g).build()
}

#[test]
fn present_ring0_interrupt_gate32_is_0x8e() {
    let b = build(Present::Yes, PrivilegeLevel::Ring0, GateType::InterruptGate32);
    assert_eq!(b.0, 0x8E);
}

#[test]
fn gate_round_trip_every_option_combination() {
    let presents = [Present::No, Present::Yes];
    let dpls = [
        PrivilegeLevel::Ring0,
        PrivilegeLevel::Ring1,
        PrivilegeLevel::Ring2,
        PrivilegeLevel::Ring3,
    ];
    let gates = [
        GateType::TaskGate,
        GateType::InterruptGate16,
        GateType::TrapGate16,
        GateType::InterruptGate32,
        GateType::TrapGate32,
    ];
    for &p in &presents {
        for &l in &dpls {
            for &g in &gates {
                let byte = build(p, l, g);
                let expected = TypeAttributesFields { present: p, dpl: l, gate_type: g };
                assert_eq!(byte.decode(), Some(expected));
            }
        }
    }
}

#[test]
fn decode_rejects_reserved_bit() {
    assert_eq!(TypeAttributes(0x1E).decode(), None);
}

#[test]
fn decode_rejects_meaningless_gate_nibble() {
    assert_eq!(TypeAttributes(0x80).decode(), None);
    assert_eq!(TypeAttributes(0x81).decode(), None);
    assert_eq!(TypeAttributes(0x88).decode(), None);
}

#[test]
fn gate_nibbles_match_cpu_encoding() {
    assert_eq!(build(Present::No, PrivilegeLevel::Ring0, GateType::TaskGate).0, 0x5);
    assert_eq!(build(Present::No, PrivilegeLevel::Ring0, GateType::InterruptGate16).0, 0x6);
    assert_eq!(build(Present::No, PrivilegeLevel::Ring0, GateType::TrapGate16).0, 0x7);
    assert_eq!(build(Present::No, PrivilegeLevel::Ring0, GateType::InterruptGate32).0, 0xE);
    assert_eq!(build(Present::No, PrivilegeLevel::Ring0, GateType::TrapGate32).0, 0xF);
}
