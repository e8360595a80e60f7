use kbdboot::idt::{idt_entry, idt_reg, IdtEntry, IdtTable, ENTRY_BYTES, IDT_ENTRIES, PM32BIT, PRESENT};

#[test]
fn entry_splits_address() {
    let e = idt_entry(0x12345678, 1 << 3, PM32BIT | PRESENT);
    assert_eq!(e.addr_lo, 0x5678);
    assert_eq!(e.addr_hi, 0x1234);
    assert_eq!(e.sel, 8);
    assert_eq!(e.zero, 0);
    assert_eq!(e.flags, 0x8e);
}

#[test]
fn entry_forces_gate_type_bits() {
    // Whatever the caller's flags byte holds, the two gate-type bits
    // 0b110 end up set.
    for flags in [0x00u8, 0x80, 0x08, 0x88, 0xf0] {
        let e = idt_entry(0, 0, flags);
        assert_eq!(e.flags & 0b110, 0b110);
        assert_eq!(e.flags & 0b111, 0b110);
    }
    // Bit 0 of the caller's flags passes through the or unchanged.
    let e = idt_entry(0, 0, 0x81);
    assert_eq!(e.flags & 0b111, 0b111);
}

#[test]
fn entry_address_round_trip() {
    for addr in [0u32, 0xffff, 0x1_0000, 0xdead_beef, 0xffff_ffff, 0xbeef] {
        let e = idt_entry(addr, 8, PRESENT);
        assert_eq!((e.addr_lo as u32) | ((e.addr_hi as u32) << 16), addr);
    }
}

#[test]
fn register_size_is_table_bytes_minus_one() {
    let r = idt_reg(0x100000);
    assert_eq!(r.size, (ENTRY_BYTES * IDT_ENTRIES - 1) as u16);
    assert_eq!(r.size, 8 * 256 - 1);
    assert_eq!(r.addr, 0x100000);
}

#[test]
fn fresh_table_is_all_not_present() {
    let t = IdtTable::new();
    for v in 0..=255u8 {
        let e = t.get(v);
        assert_eq!(e.flags & 0x80, 0);
        assert_eq!(
            e,
            IdtEntry { addr_lo: 0, sel: 0, zero: 0, flags: 0, addr_hi: 0 }
        );
    }
}

#[test]
fn set_vector_touches_one_slot() {
    let mut t = IdtTable::new();
    let e = idt_entry(0xcafe_f00d, 8, PM32BIT | PRESENT);
    t.set_vector(33, e);
    assert_eq!(t.get(33), e);
    for v in 0..=255u8 {
        if v != 33 {
            assert_eq!(t.get(v).flags, 0);
            assert_eq!(t.get(v).addr_lo, 0);
        }
    }
}
