use vstd::prelude::*;
use super::NesController;

verus! {

/// The eight buttons of a standard controller, in the order the shift register reports them.
#[allow(non_camel_case_types)]
#[derive(Clone, Copy, Debug, PartialEq, Eq, Structural)]
pub enum JoypadButtons {
    BUTTON_A,
    BUTTON_B,
    SELECT,
    START,
    UP,
    DOWN,
    LEFT,
    RIGHT,
}

/// Each button's bit in the pressed-buttons byte, bit 0 being read out first.
pub open spec fn button_mask(b: JoypadButtons) -> u8 {
    match b {
        JoypadButtons::BUTTON_A => 0b0000_0001,
        JoypadButtons::BUTTON_B => 0b0000_0010,
        JoypadButtons::SELECT => 0b0000_0100,
        JoypadButtons::START => 0b0000_1000,
        JoypadButtons::UP => 0b0001_0000,
        JoypadButtons::DOWN => 0b0010_0000,
        JoypadButtons::LEFT => 0b0100_0000,
        JoypadButtons::RIGHT => 0b1000_0000,
    }
}

impl JoypadButtons {
    /// The button's bit in the pressed-buttons byte.
    pub fn bit(&self) -> (m: u8)
        ensures
            m == button_mask(*self),
    {
        match self {
            JoypadButtons::BUTTON_A => 0b0000_0001,
            JoypadButtons::BUTTON_B => 0b0000_0010,
            JoypadButtons::SELECT => 0b0000_0100,
            JoypadButtons::START => 0b0000_1000,
            JoypadButtons::UP => 0b0001_0000,
            JoypadButtons::DOWN => 0b0010_0000,
            JoypadButtons::LEFT => 0b0100_0000,
            JoypadButtons::RIGHT => 0b1000_0000,
        }
    }
}

/// The set of pressed buttons, one bit per button.
#[derive(Clone, Copy, Debug, PartialEq, Eq, Structural)]
pub struct PressedButtons {
    pub bits: u8,
}

impl PressedButtons {
    pub fn bits(&self) -> (b: u8)
        ensures
            b == self.bits,
    {
        self.bits
    }

    pub fn contains(&self, button: JoypadButtons) -> (r: bool)
        ensures
            r == (self.bits & button_mask(button) != 0),
    {
        let m = button.bit();
        self.bits & m != 0
    }
}

/// A standard controller: eight buttons read out serially after a strobe.
pub struct Joypad {
    pub buttons: PressedButtons,
    pub button_index: u8,
    pub strobe: bool,
}

impl Joypad {
    pub fn new() -> (j: Joypad)
        ensures
            j.buttons.bits == 0,
            j.button_index == 0,
            !j.strobe,
    {
        Joypad { buttons: PressedButtons { bits: 0 }, button_index: 0, strobe: false }
    }

    /// Presses (`state`) or releases a button.
    pub fn set_button_status(&mut self, button: &JoypadButtons, state: bool)
        ensures
            final(self).buttons.bits == (if state {
                old(self).buttons.bits | button_mask(*button)
            } else {
                old(self).buttons.bits & !button_mask(*button)
            }),
            final(self).button_index == old(self).button_index,
            final(self).strobe == old(self).strobe,
    {
        let m = button.bit();
        if state {
            self.buttons.bits = self.buttons.bits | m;
        } else {
            self.buttons.bits = self.buttons.bits & !m;
        }
    }
}

impl NesController for Joypad {
    open spec fn strobe_spec(&self) -> bool {
        self.strobe
    }

    /// The bit of the current button, then the next one unless the strobe is high; after
    /// the eighth read every read gives 1.
    fn read(&mut self) -> (bit: u8)
        ensures
            old(self).button_index > 7 ==> bit == 1 && *final(self) == *old(self),
            old(self).button_index <= 7 ==> {
                &&& bit == (old(self).buttons.bits >> old(self).button_index) & 1
                &&& final(self).button_index == (if old(self).strobe {
                    old(self).button_index
                } else {
                    (old(self).button_index + 1) as u8
                })
                &&& final(self).buttons == old(self).buttons
                &&& final(self).strobe == old(self).strobe
            },
    {
        if self.button_index > 7 {
            return 1;
        }
        let status = (self.buttons.bits >> self.button_index) & 0b1;
        proof {
            let b = self.buttons.bits;
            let i = self.button_index;
            assert((b >> i) & 1 <= 1) by (bit_vector);
        }
        if !self.strobe {
            self.button_index = self.button_index + 1;
        }
        status
    }

    /// A high strobe rewinds the readout to the first button.
    fn write(&mut self, data: u8)
        ensures
            final(self).strobe == (data % 2 == 1),
            final(self).button_index == (if data % 2 == 1 { 0 } else { old(self).button_index }),
            final(self).buttons == old(self).buttons,
    {
        self.strobe = data % 2 == 1;
        if self.strobe {
            self.button_index = 0;
        }
    }
}

/// The buttons' bits in the order the controller reports them: A is read first (bit 0),
/// then B, SELECT, START, UP, DOWN, LEFT and RIGHT (bit 7).
pub proof fn lemma_button_read_order()
    ensures
        button_mask(JoypadButtons::BUTTON_A) == 0x01,
        button_mask(JoypadButtons::BUTTON_B) == 0x02,
        button_mask(JoypadButtons::SELECT) == 0x04,
        button_mask(JoypadButtons::START) == 0x08,
        button_mask(JoypadButtons::UP) == 0x10,
        button_mask(JoypadButtons::DOWN) == 0x20,
        button_mask(JoypadButtons::LEFT) == 0x40,
        button_mask(JoypadButtons::RIGHT) == 0x80,
{
}

/// Pressing a button on a pad with nothing pressed, then reading the buttons out, reports
/// it at its own place in the read order and nowhere else: read `k` (from 0) sees bit `k`.
pub proof fn lemma_pressed_button_read_position(b: JoypadButtons, k: u8)
    requires
        k < 8,
    ensures
        ((button_mask(b) >> k) & 1 == 1) <==> k == (match b {
            JoypadButtons::BUTTON_A => 0u8,
            JoypadButtons::BUTTON_B => 1u8,
            JoypadButtons::SELECT => 2u8,
            JoypadButtons::START => 3u8,
            JoypadButtons::UP => 4u8,
            JoypadButtons::DOWN => 5u8,
            JoypadButtons::LEFT => 6u8,
            JoypadButtons::RIGHT => 7u8,
        }),
{
    assert(
        (k < 8 ==> (((1u8 >> k) & 1 == 1) <==> k == 0)) &&
        (k < 8 ==> (((2u8 >> k) & 1 == 1) <==> k == 1)) &&
        (k < 8 ==> (((4u8 >> k) & 1 == 1) <==> k == 2)) &&
        (k < 8 ==> (((8u8 >> k) & 1 == 1) <==> k == 3)) &&
        (k < 8 ==> (((16u8 >> k) & 1 == 1) <==> k == 4)) &&
        (k < 8 ==> (((32u8 >> k) & 1 == 1) <==> k == 5)) &&
        (k < 8 ==> (((64u8 >> k) & 1 == 1) <==> k == 6)) &&
        (k < 8 ==> (((128u8 >> k) & 1 == 1) <==> k == 7))
    ) by (bit_vector);
}

} // verus!
