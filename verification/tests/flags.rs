use switch_pro_xy::flags::flags_without;
use switch_pro_xy::{HANDSHAKE_BUFFER_LEN, RELAY_BUFFER_LEN};

#[test]
fn set_flag_is_cleared() {
    assert_eq!(flags_without(0x802, 0x800), Some(0x002));
    assert_eq!(flags_without(0x800, 0x800), Some(0));
}

#[test]
fn absent_flag_needs_no_write() {
    assert_eq!(flags_without(0x002, 0x800), None);
    assert_eq!(flags_without(0, 0x800), None);
}

#[test]
fn other_bits_stay() {
    assert_eq!(flags_without(-1, 0x800), Some(!0x800));
    assert_eq!(flags_without(0x0c02, 0x0c00), Some(0x002));
}

#[test]
fn buffer_capacities() {
    assert_eq!(HANDSHAKE_BUFFER_LEN, 350);
    assert_eq!(RELAY_BUFFER_LEN, 1024);
}
