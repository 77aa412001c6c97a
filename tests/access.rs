use rhxd::access::AccessPrivileges;

#[test]
fn test_wire_format_roundtrip() {
    let original = AccessPrivileges::admin();
    let wire = original.to_wire_format();
    let decoded = AccessPrivileges::from_wire_format(wire);
    assert_eq!(original, decoded);
}

#[test]
fn test_guest_access() {
    let guest = AccessPrivileges::guest();
    assert!(guest.contains(AccessPrivileges::READ_CHAT));
    assert!(guest.contains(AccessPrivileges::SEND_CHAT));
    assert!(guest.contains(AccessPrivileges::READ_NEWS));
    assert!(guest.contains(AccessPrivileges::DOWNLOAD_FILES));
    assert!(!guest.contains(AccessPrivileges::UPLOAD_FILES));
}

#[test]
fn test_bit_reversal_little_endian() {
    let access = AccessPrivileges::from_bits_truncate(AccessPrivileges::DELETE_FILES);
    let wire = access.to_wire_format_for(true);
    println!("Wire format for DELETE_FILES: {:02X?}", wire);
    println!("Bits value: 0x{:016X}", access.bits());
    assert_eq!(wire[0], 0x80, "Bit 0 should be in byte 0, bit 7 (0x80)");
}

#[test]
fn test_multiple_bits_little_endian() {
    let access = AccessPrivileges::from_bits_truncate(
        AccessPrivileges::DELETE_FILES
            | AccessPrivileges::UPLOAD_FILES
            | AccessPrivileges::DOWNLOAD_FILES,
    );
    let wire = access.to_wire_format_for(true);
    assert_eq!(wire[0], 0xE0, "Bits 0,1,2 should be in byte 0 as 0xE0");
}

#[test]
fn test_no_reversal_big_endian() {
    let access = AccessPrivileges::from_bits_truncate(AccessPrivileges::DELETE_FILES);
    let wire = access.to_wire_format_for(false);
    assert_eq!(wire[7], 0x01, "Bit 0 should remain at position 0 on big-endian");
}

#[test]
fn wire_round_trip_every_bit_both_orders() {
    for bit in 0..50u32 {
        let p = AccessPrivileges::from_bits_truncate(1u64 << bit);
        for little in [true, false] {
            let w = p.to_wire_format_for(little);
            assert_eq!(AccessPrivileges::from_wire_format_for(w, little), p);
        }
    }
    let p = AccessPrivileges::sysop();
    for little in [true, false] {
        assert_eq!(AccessPrivileges::from_wire_format_for(p.to_wire_format_for(little), little), p);
    }
}

#[test]
fn wire_form_exact_bytes() {
    let p = AccessPrivileges::from_bits_truncate(AccessPrivileges::READ_CHAT);
    assert_eq!(p.to_wire_format_for(true), [0x00, 0x40, 0, 0, 0, 0, 0, 0]);
    assert_eq!(p.to_wire_format_for(false), [0, 0, 0, 0, 0, 0, 0x02, 0x00]);
}

#[test]
fn undefined_bits_are_dropped() {
    let p = AccessPrivileges::from_bits_truncate(u64::MAX);
    assert_eq!(p, AccessPrivileges::sysop());
    assert_eq!(p.bits(), (1u64 << 50) - 1);
    let w = [0xffu8; 8];
    assert_eq!(AccessPrivileges::from_wire_format_for(w, true), AccessPrivileges::sysop());
}

#[test]
fn presets_and_names() {
    assert_eq!(AccessPrivileges::guest().bits(), 0x100604);
    assert!(!AccessPrivileges::admin().contains(AccessPrivileges::CANT_BE_DISCONNECTED));
    assert!(AccessPrivileges::sysop().contains(AccessPrivileges::CANT_BE_DISCONNECTED));
    assert_eq!(AccessPrivileges::from_preset("ADMIN"), Some(AccessPrivileges::admin()));
    assert_eq!(AccessPrivileges::from_preset("user"), Some(AccessPrivileges::user()));
    assert_eq!(AccessPrivileges::from_preset("root"), None);
    assert_eq!(AccessPrivileges::sysop().preset_name(), Some("sysop"));
    assert_eq!(AccessPrivileges::guest().preset_name(), Some("guest"));
    assert_eq!(AccessPrivileges::from_bits_truncate(1).preset_name(), None);
    assert_eq!(AccessPrivileges::default(), AccessPrivileges::user());
}

#[test]
fn host_order_matches_one_of_the_two() {
    let p = AccessPrivileges::from_bits_truncate(AccessPrivileges::DELETE_FILES);
    let w = p.to_wire_format();
    assert!(w == p.to_wire_format_for(true) || w == p.to_wire_format_for(false));
}
