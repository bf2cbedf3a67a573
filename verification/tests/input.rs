use gbemu::gpu::{key_binding, Joypad, JoypadKey};

#[test]
fn joypad_starts_released() {
    assert_eq!(Joypad::new().buttons, 0b0011_1111);
}

#[test]
fn pressing_a_direction_selects_the_pad() {
    let r = Joypad::register_input(0, String::from("dpad"), Joypad::new());
    assert_eq!(r, 0b0010_1110);
}

#[test]
fn pressing_a_button_selects_the_buttons() {
    let r = Joypad::register_input(2, String::from("buttons"), Joypad::new());
    assert_eq!(r, 0b0001_1011);
}

#[test]
fn pressing_twice_is_pressing_once() {
    let once = Joypad::register_input(3, String::from("buttons"), Joypad::new());
    let twice = Joypad::register_input(3, String::from("buttons"), Joypad { buttons: once });
    assert_eq!(once, twice);
}

#[test]
fn the_other_group_is_ignored_until_release() {
    let pad = Joypad::register_input(1, String::from("dpad"), Joypad::new());
    let after = Joypad::register_input(0, String::from("buttons"), Joypad { buttons: pad });
    assert_eq!(after, pad);
}

#[test]
fn a_press_only_clears_bits() {
    for start in [0x3Fu8, 0x2E, 0x1B, 0xFF, 0x00] {
        for line in 0..8u8 {
            for mode in ["dpad", "buttons"] {
                let r = Joypad::register_input(line, String::from(mode), Joypad { buttons: start });
                assert_eq!(r & start, r);
            }
        }
    }
}

#[test]
fn keys_are_bound_to_lines() {
    assert_eq!(key_binding(JoypadKey::A), (0, false));
    assert_eq!(key_binding(JoypadKey::W), (0, false));
    assert_eq!(key_binding(JoypadKey::C), (3, false));
    assert_eq!(key_binding(JoypadKey::Left), (1, true));
    assert_eq!(key_binding(JoypadKey::S), (3, true));
}

#[test]
fn a_frame_of_keys_is_sent_and_released() {
    let mut j = Joypad::new();
    let sent = j.handle_keys(&vec![JoypadKey::Right, JoypadKey::Up]).unwrap();
    assert_eq!(sent.buttons, 0b0010_1010);
    assert_eq!(j.buttons, 0b0011_1111);
    assert!(j.handle_keys(&vec![]).is_none());
    assert_eq!(j.buttons, 0b0011_1111);
}

