use ctru::hid::{Hid, KeyPad, ALL_KEYS, KEY_A, KEY_B, KEY_CPAD_UP, KEY_DUP, KEY_SELECT, KEY_UP};
use ctru::service::ServiceTable;
use ctru::use_panic_handler;

#[test]
fn edges_over_three_frames() {
    let mut table = ServiceTable::new();
    let mut hid = Hid::new(&mut table, 0).ok().unwrap();
    let a = KeyPad::from_bits_truncate(KEY_A);
    let b = KeyPad::from_bits_truncate(KEY_B);
    let ab = a.union(b);

    hid.scan_input(KEY_A, (0, 0), (0, 0));
    assert_eq!(hid.keys_down(), a);
    assert_eq!(hid.keys_held(), a);
    assert!(hid.keys_up().is_empty());

    hid.scan_input(KEY_A | KEY_B, (0, 0), (0, 0));
    assert_eq!(hid.keys_down(), b);
    assert_eq!(hid.keys_held(), ab);
    assert!(hid.keys_up().is_empty());

    hid.scan_input(KEY_B, (0, 0), (0, 0));
    assert!(hid.keys_down().is_empty());
    assert_eq!(hid.keys_held(), b);
    assert_eq!(hid.keys_up(), a);
    assert_eq!(hid.keys_up(), hid.keys_up());
}

#[test]
fn positions_come_from_the_last_scan() {
    let mut table = ServiceTable::new();
    let mut hid = Hid::new(&mut table, 0).ok().unwrap();
    assert_eq!(hid.touch_position(), (0, 0));
    hid.scan_input(0, (120, 45), (-30, 70));
    assert_eq!(hid.touch_position(), (120, 45));
    assert_eq!(hid.circlepad_position(), (-30, 70));
}

#[test]
fn unknown_bits_are_dropped() {
    let k = KeyPad::from_bits_truncate(0xFFFF_FFFF);
    assert_eq!(k.bits(), ALL_KEYS);
    assert_eq!(KeyPad::from_bits_truncate(1 << 12).bits(), 0);
    assert_eq!(KeyPad::all().bits(), ALL_KEYS);
}

#[test]
fn direction_aliases_join_both_pads() {
    assert_eq!(KEY_UP, KEY_DUP | KEY_CPAD_UP);
    let up = KeyPad::from_bits_truncate(KEY_UP);
    assert!(up.contains(KeyPad::from_bits_truncate(KEY_DUP)));
    assert!(up.contains(KeyPad::from_bits_truncate(KEY_CPAD_UP)));
    assert!(!KeyPad::from_bits_truncate(KEY_DUP).contains(up));
    assert!(KeyPad::from_bits_truncate(KEY_DUP).intersects(up));
}

#[test]
fn key_set_operations() {
    let ab = KeyPad::from_bits_truncate(KEY_A | KEY_B);
    let b = KeyPad::from_bits_truncate(KEY_B);
    assert_eq!(ab.intersection(b), b);
    assert_eq!(ab.difference(b).bits(), KEY_A);
    assert!(KeyPad::empty().is_empty());
    assert!(!ab.intersects(KeyPad::from_bits_truncate(KEY_SELECT)));
}

#[test]
fn panic_handler_waits_for_select() {
    let h = use_panic_handler();
    assert!(h.should_wait(true, true));
    assert!(!h.should_wait(false, true));
    assert!(!h.should_wait(true, false));
    assert!(h.should_exit(KeyPad::from_bits_truncate(KEY_SELECT | KEY_A)));
    assert!(!h.should_exit(KeyPad::from_bits_truncate(KEY_A)));
}
