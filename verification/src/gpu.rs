//! The joypad matrix and the logic of the display front end: which keys
//! press which joypad lines, and the colours the frame buffer is shown in.

use vstd::prelude::*;
use crate::ppu::SCREEN_PIXELS;

verus! {

/// The joypad register: bits 0-3 are the lines of the selected group (0 =
/// pressed), bit 4 selects the direction pad and bit 5 the buttons (0 =
/// selected).
pub struct Joypad {
    pub buttons: u8,
}

impl Clone for Joypad {
    fn clone(&self) -> (r: Joypad)
        ensures
            r == *self,
    {
        Joypad { buttons: self.buttons }
    }
}

/// The register after pressing line `button` of the direction pad (`dpad`)
/// or of the buttons: when the group is not yet selected, the line is
/// cleared and the other group's select bit is cleared; otherwise nothing
/// changes.
pub open spec fn press_spec(buttons: u8, button: u8, dpad: bool) -> u8 {
    if dpad {
        if buttons & 0x20 != 0 {
            buttons & !(1u8 << button) & 0xEF
        } else {
            buttons
        }
    } else {
        if buttons & 0x10 != 0 {
            buttons & !(1u8 << button) & 0xDF
        } else {
            buttons
        }
    }
}

/// A press never releases a line: it only clears bits of the register.
pub proof fn lemma_press_only_clears(buttons: u8, button: u8, dpad: bool)
    requires
        button < 8,
    ensures
        press_spec(buttons, button, dpad) & buttons == press_spec(buttons, button, dpad),
{
    assert(buttons & buttons == buttons && (buttons & !(1u8 << button) & 0xEF) & buttons == buttons & !(
    1u8 << button) & 0xEF && (buttons & !(1u8 << button) & 0xDF) & buttons == buttons & !(1u8 << button)
        & 0xDF) by (bit_vector);
}

/// What a press does: when its group may be selected (bit 5 set for the
/// direction pad, bit 4 for the buttons) it clears its line and the other
/// group's select bit and keeps every other bit; otherwise it changes
/// nothing.
pub proof fn lemma_press_effect(buttons: u8, button: u8, dpad: bool)
    requires
        button < 8,
    ensures
        ({
            let r = press_spec(buttons, button, dpad);
            let line = 1u8 << button;
            &&& (dpad && buttons & 0x20 != 0) ==> r & line == 0 && r & 0x10 == 0 && r | line | 0x10
                == buttons | line | 0x10
            &&& (!dpad && buttons & 0x10 != 0) ==> r & line == 0 && r & 0x20 == 0 && r | line | 0x20
                == buttons | line | 0x20
            &&& (dpad && buttons & 0x20 == 0) ==> r == buttons
            &&& (!dpad && buttons & 0x10 == 0) ==> r == buttons
        }),
{
    let line = 1u8 << button;
    let m = buttons & !line & 0xEF;
    let n = buttons & !line & 0xDF;
    assert(m & line == 0 && m & 0x10 == 0 && m | line | 0x10 == buttons | line | 0x10) by (bit_vector)
        requires
            m == buttons & !line & 0xEF,
    ;
    assert(n & line == 0 && n & 0x20 == 0 && n | line | 0x20 == buttons | line | 0x20) by (bit_vector)
        requires
            n == buttons & !line & 0xDF,
    ;
}

/// Pressing the same line twice has the effect of pressing it once.
pub proof fn lemma_press_idempotent(buttons: u8, button: u8, dpad: bool)
    requires
        button < 8,
    ensures
        press_spec(press_spec(buttons, button, dpad), button, dpad) == press_spec(buttons, button, dpad),
{
    let m = buttons & !(1u8 << button) & 0xEF;
    let n = buttons & !(1u8 << button) & 0xDF;
    assert(m & !(1u8 << button) & 0xEF == m) by (bit_vector)
        requires
            m == buttons & !(1u8 << button) & 0xEF,
    ;
    assert(n & !(1u8 << button) & 0xDF == n) by (bit_vector)
        requires
            n == buttons & !(1u8 << button) & 0xDF,
    ;
}

/// Once a press of one group has taken effect, a press of the other group
/// is ignored until the joypad is released: the press deselects the other
/// group.
pub proof fn lemma_press_locks_group(buttons: u8, first: u8, second: u8, dpad: bool)
    requires
        first < 8,
        press_spec(buttons, first, dpad) != buttons,
    ensures
        press_spec(press_spec(buttons, first, dpad), second, !dpad) == press_spec(buttons, first, dpad),
{
    let m = buttons & !(1u8 << first) & 0xEF;
    let n = buttons & !(1u8 << first) & 0xDF;
    assert(m & 0x10 == 0 && n & 0x20 == 0) by (bit_vector)
        requires
            m == buttons & !(1u8 << first) & 0xEF,
            n == buttons & !(1u8 << first) & 0xDF,
    ;
}

impl Joypad {
    pub fn new() -> (j: Joypad)
        ensures
            j.buttons == 0b00111111,
    {
        let buttons_matrix = 0b00111111;
        Joypad { buttons: buttons_matrix }
    }

    /// The register after pressing `button` in `mode` ("dpad" or "buttons").
    pub fn register_input(button: u8, mode: String, joypad: Joypad) -> (r: u8)
        requires
            button < 8,
            mode@ == "dpad"@ || mode@ == "buttons"@,
        ensures
            mode@ == "dpad"@ ==> r == press_spec(joypad.buttons, button, true),
            mode@ == "buttons"@ ==> r == press_spec(joypad.buttons, button, false),
    {
        proof {
            reveal_strlit("dpad");
            reveal_strlit("buttons");
            assert("dpad"@.len() == 4);
            assert("buttons"@.len() == 7);
            assert("buttons"@ != "dpad"@);
        }
        assert(1u8 << 5u8 == 0x20u8 && 1u8 << 4u8 == 0x10u8 && !(1u8 << 4u8) == 0xEFu8 && !(1u8 << 5u8)
            == 0xDFu8) by (bit_vector);
        let mut joypad = joypad;
        let dpad = String::from_str("dpad");
        let is_dpad = mode.eq(&dpad);
        assert(is_dpad == (mode@ == "dpad"@));
        if is_dpad {
            if joypad.buttons & (1u8 << 5u8) != 0 {
                // A mask with the bit to clear set to 0
                let clear_bit_mask: u8 = !(1u8 << button);
                joypad.buttons = joypad.buttons & clear_bit_mask;
                joypad.buttons = joypad.buttons & !(1u8 << 4u8);
            }
        } else {
            if joypad.buttons & (1u8 << 4u8) != 0 {
                // A mask with the bit to clear set to 0
                let clear_bit_mask: u8 = !(1u8 << button);
                joypad.buttons = joypad.buttons & clear_bit_mask;
                joypad.buttons = joypad.buttons & !(1u8 << 5u8);
            }
        }
        joypad.buttons
    }
}

/// The keys the front end reacts to: A or W is button A, B or X button B,
/// R or V Select, E or C Start; D or Right, Q or Left, Z or Up and S or Down
/// are the direction pad.
#[derive(Clone, Copy, Debug, PartialEq, Eq, Structural)]
pub enum JoypadKey {
    A,
    W,
    B,
    X,
    R,
    V,
    E,
    C,
    D,
    Right,
    Q,
    Left,
    Z,
    Up,
    S,
    Down,
}

/// The joypad line and group (`true` for the direction pad) of a key.
pub open spec fn key_binding_spec(key: JoypadKey) -> (u8, bool) {
    match key {
        JoypadKey::A | JoypadKey::W => (0, false),
        JoypadKey::B | JoypadKey::X => (1, false),
        JoypadKey::R | JoypadKey::V => (2, false),
        JoypadKey::E | JoypadKey::C => (3, false),
        JoypadKey::D | JoypadKey::Right => (0, true),
        JoypadKey::Q | JoypadKey::Left => (1, true),
        JoypadKey::Z | JoypadKey::Up => (2, true),
        JoypadKey::S | JoypadKey::Down => (3, true),
    }
}

/// Each joypad line is pressed by exactly its own two keys: A or W button
/// line 0, B or X line 1, R or V line 2 (Select), E or C line 3 (Start);
/// D or Right pad line 0, Q or Left line 1, Z or Up line 2, S or Down line 3.
pub proof fn lemma_keys_press_their_lines(key: JoypadKey)
    ensures
        key_binding_spec(key) == (0u8, false) <==> (key == JoypadKey::A || key == JoypadKey::W),
        key_binding_spec(key) == (1u8, false) <==> (key == JoypadKey::B || key == JoypadKey::X),
        key_binding_spec(key) == (2u8, false) <==> (key == JoypadKey::R || key == JoypadKey::V),
        key_binding_spec(key) == (3u8, false) <==> (key == JoypadKey::E || key == JoypadKey::C),
        key_binding_spec(key) == (0u8, true) <==> (key == JoypadKey::D || key == JoypadKey::Right),
        key_binding_spec(key) == (1u8, true) <==> (key == JoypadKey::Q || key == JoypadKey::Left),
        key_binding_spec(key) == (2u8, true) <==> (key == JoypadKey::Z || key == JoypadKey::Up),
        key_binding_spec(key) == (3u8, true) <==> (key == JoypadKey::S || key == JoypadKey::Down),
{
}

pub fn key_binding(key: JoypadKey) -> (r: (u8, bool))
    ensures
        r == key_binding_spec(key),
{
    match key {
        JoypadKey::A | JoypadKey::W => (0, false),
        JoypadKey::B | JoypadKey::X => (1, false),
        JoypadKey::R | JoypadKey::V => (2, false),
        JoypadKey::E | JoypadKey::C => (3, false),
        JoypadKey::D | JoypadKey::Right => (0, true),
        JoypadKey::Q | JoypadKey::Left => (1, true),
        JoypadKey::Z | JoypadKey::Up => (2, true),
        JoypadKey::S | JoypadKey::Down => (3, true),
    }
}

/// The register after pressing the keys in order.
pub open spec fn press_keys_spec(buttons: u8, keys: Seq<JoypadKey>) -> u8
    decreases keys.len(),
{
    if keys.len() == 0 {
        buttons
    } else {
        let b = press_keys_spec(buttons, keys.drop_last());
        let (line, dpad) = key_binding_spec(keys.last());
        press_spec(b, line, dpad)
    }
}

impl Joypad {
    /// Presses the keys of a frame in order. When any key was pressed, the
    /// resulting register is returned (to be sent to the CPU) and the
    /// joypad is released to 0b00111111; otherwise it is left alone.
    pub fn handle_keys(&mut self, keys: &Vec<JoypadKey>) -> (r: Option<Joypad>)
        ensures
            keys@.len() == 0 ==> r is None && *final(self) == *old(self),
            keys@.len() > 0 ==> r == Some(Joypad { buttons: press_keys_spec(old(self).buttons, keys@) })
                && final(self).buttons == 0b00111111,
    {
        let mut button_pressed: bool = false;
        let mut i: usize = 0;
        while i < keys.len()
            invariant
                0 <= i <= keys@.len(),
                self.buttons == press_keys_spec(old(self).buttons, keys@.subrange(0, i as int)),
                button_pressed == (i > 0),
            decreases keys@.len() - i,
        {
            let (line, dpad) = key_binding(keys[i]);
            let mode = if dpad { String::from_str("dpad") } else { String::from_str("buttons") };
            proof {
                assert(keys@.subrange(0, i + 1).drop_last() =~= keys@.subrange(0, i as int));
            }
            self.buttons = Joypad::register_input(line, mode, Joypad { buttons: self.buttons });
            button_pressed = true;
            i = i + 1;
        }
        assert(keys@.subrange(0, keys@.len() as int) =~= keys@);
        if button_pressed {
            let sent = Joypad { buttons: self.buttons };
            self.buttons = 0b00111111;
            Some(sent)
        } else {
            None
        }
    }
}

/// The RGB colour of a colour number: white, light grey, dark grey, black;
/// other values show white.
pub open spec fn pixel_color_spec(v: u8) -> u32 {
    if v == 1 {
        0x00A9A9A9
    } else if v == 2 {
        0x00545454
    } else if v == 3 {
        0x00000000
    } else {
        0x00FFFFFF
    }
}

/// The colours are greys (equal red, green and blue components) that grow
/// darker with the colour number, from white for 0 to black for 3.
pub proof fn lemma_colours_darken(v: u8)
    requires
        v < 3,
    ensures
        pixel_color_spec(v) > pixel_color_spec((v + 1) as u8),
        pixel_color_spec(v) % 0x010101 == 0,
        pixel_color_spec(3) == 0,
        pixel_color_spec(0) == 0x00FFFFFF,
{
}

pub fn pixel_color(v: u8) -> (r: u32)
    ensures
        r == pixel_color_spec(v),
{
    match v {
        0 => 0x00FFFFFF,  // white
        1 => 0x00A9A9A9,  // light grey
        2 => 0x00545454,  // dark grey
        3 => 0x00000000,  // black
        _ => 0x00FFFFFF,  // not a colour number: left white
    }
}

/// Colours the window buffer from a frame: pixel `i` of the buffer shows
/// colour number `i` of the frame.
pub fn frame_to_rgb(video_buffer: &[u8; SCREEN_PIXELS], buffer: &mut Vec<u32>)
    requires
        old(buffer)@.len() <= SCREEN_PIXELS,
    ensures
        final(buffer)@.len() == old(buffer)@.len(),
        forall|i: int| 0 <= i < old(buffer)@.len() ==> #[trigger] final(buffer)@[i] == pixel_color_spec(video_buffer@[i]),
{
    let mut i: usize = 0;
    while i < buffer.len()
        invariant
            buffer@.len() == old(buffer)@.len(),
            buffer@.len() <= SCREEN_PIXELS,
            0 <= i <= buffer@.len(),
            forall|j: int| 0 <= j < i ==> #[trigger] buffer@[j] == pixel_color_spec(video_buffer@[j]),
        decreases buffer@.len() - i,
    {
        let color_value = pixel_color(video_buffer[i]);
        buffer.set(i, color_value);
        i = i + 1;
    }
}

} // verus!
