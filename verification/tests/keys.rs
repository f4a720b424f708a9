use chip8::emulator::keys::Keys;

#[test]
fn no_key_is_down_at_first() {
    let keys = Keys::new();
    for k in 0..16u8 {
        assert!(!keys.is_pressed(k));
    }
}

#[test]
fn a_key_is_down_until_it_is_released() {
    let mut keys = Keys::new();
    keys.set_key(0xA, true);
    keys.set_key(0x0, true);
    for k in 0..16u8 {
        assert_eq!(keys.is_pressed(k), k == 0xA || k == 0x0);
    }
    keys.set_key(0xA, false);
    for k in 0..16u8 {
        assert_eq!(keys.is_pressed(k), k == 0x0);
    }
}
