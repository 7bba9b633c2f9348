use lib::display::shared_frame::SharedFrame;
use lib::error::{EmulatorError, EmulatorErrorType};
use lib::memory::stack_memory::StackMemory;
use lib::controller::joypad::{Joypad, JoypadButtons};
use lib::controller::NesController;
use lib::cpu::{rotate_value_left, rotate_value_right};
use lib::memory::heap_memory::HeapMemory;
use lib::memory::memory_trait::MemoryTrait;
use lib::memory::Memory;

#[test]
fn test_joypad_default_state() {
    let joypad = Joypad::new();
    assert_eq!(joypad.buttons.bits(), 0);
    assert_eq!(joypad.strobe, false);
    assert_eq!(joypad.button_index, 0);
}

#[test]
fn test_button_press_and_release() {
    let mut joypad = Joypad::new();
    joypad.set_button_status(&JoypadButtons::BUTTON_A, true);
    joypad.set_button_status(&JoypadButtons::START, true);
    assert!(joypad.buttons.contains(JoypadButtons::BUTTON_A));
    assert!(joypad.buttons.contains(JoypadButtons::START));
    assert!(!joypad.buttons.contains(JoypadButtons::BUTTON_B));
    joypad.set_button_status(&JoypadButtons::BUTTON_A, false);
    assert!(!joypad.buttons.contains(JoypadButtons::BUTTON_A));
}

#[test]
fn test_strobe_behavior() {
    let mut joypad = Joypad::new();
    joypad.set_button_status(&JoypadButtons::BUTTON_A, true);
    joypad.set_button_status(&JoypadButtons::RIGHT, true);
    joypad.write(1);
    assert!(joypad.strobe);
    assert_eq!(joypad.button_index, 0);
    for _ in 0..10 {
        assert_eq!(joypad.read(), 1);
    }
    joypad.write(0);
    assert!(!joypad.strobe);
    assert_eq!(joypad.button_index, 0);
    let expected = [
        JoypadButtons::BUTTON_A,
        JoypadButtons::BUTTON_B,
        JoypadButtons::SELECT,
        JoypadButtons::START,
        JoypadButtons::UP,
        JoypadButtons::DOWN,
        JoypadButtons::LEFT,
        JoypadButtons::RIGHT,
    ];
    for i in 0..8 {
        let bit = joypad.read();
        let expected_bit = if joypad.buttons.contains(expected[i].clone()) { 1 } else { 0 };
        assert_eq!(bit, expected_bit, "Button {:?} read incorrect", expected[i]);
    }
    assert_eq!(joypad.read(), 1);
    assert_eq!(joypad.read(), 1);
}

#[test]
fn joypad_button_bits_follow_read_order() {
    assert_eq!(JoypadButtons::BUTTON_A.bit(), 0b0000_0001);
    assert_eq!(JoypadButtons::START.bit(), 0b0000_1000);
    assert_eq!(JoypadButtons::RIGHT.bit(), 0b1000_0000);
}

#[test]
fn cpu_test_rotate_value_right() {
    let (result, new_carry) = rotate_value_right(0xE0, true);
    assert_eq!(result, 240);
    assert_eq!(new_carry, false);
}

#[test]
fn cpu_test_rotate_value_left() {
    let (result, new_carry) = rotate_value_left(0xE0, true);
    assert_eq!(result, 193);
    assert_eq!(new_carry, true);
}

#[test]
fn rotate_right_then_left_restores_value() {
    let (r, c) = rotate_value_right(0x5B, false);
    let (back, carry) = rotate_value_left(r, c);
    assert_eq!(back, 0x5B);
    assert_eq!(carry, false);
}

#[test]
fn test_new_memory() {
    let mem: HeapMemory<i32> = HeapMemory::new(16, 42);
    assert_eq!(mem.get_size(), 16);
    for i in 0..16 {
        assert_eq!(*mem.read(i), 42);
    }
}

#[test]
fn test_write_and_read() {
    let mut mem: HeapMemory<i32> = HeapMemory::new(16, 42);
    mem.write(5, 42);
    assert_eq!(*mem.read(5), 42);
}

#[test]
fn test_write_n_and_read_n() {
    let mut mem: HeapMemory<i32> = HeapMemory::new(16, 42);
    let values = [10, 20, 30, 40];
    mem.write_n(4, &values);
    assert_eq!(mem.read_n(4, 4), &values);
}

#[test]
fn memory_write_vec_keeps_neighbours() {
    let mut mem: Memory<u8> = Memory::new(8, 0);
    mem.write_vec(2, vec![7, 8, 9]);
    assert_eq!(mem.read_n(0, 8), &[0, 0, 7, 8, 9, 0, 0, 0]);
    assert_eq!(mem.get_size(), 8);
}

#[test]
fn cpu_tests_test_rotate_value_right() {
    let (result, new_carry) = rotate_value_right(0xE0, true);
    assert_eq!(result, 240);
    assert_eq!(new_carry, false);
}

#[test]
fn cpu_tests_test_rotate_value_left() {
    let (result, new_carry) = rotate_value_left(0xE0, true);
    assert_eq!(result, 193);
    assert_eq!(new_carry, true);
}

#[test]
fn stack_memory_size_is_fixed_by_type() {
    let mut mem: StackMemory<u8, 8> = StackMemory::new(100, 3);
    assert_eq!(mem.get_size(), 8);
    mem.write(7, 9);
    assert_eq!(*mem.read(7), 9);
    mem.write_n(0, &[1, 2]);
    assert_eq!(mem.read_n(0, 3), &[1, 2, 3]);
}

#[test]
fn emulator_error_carries_kind_and_info() {
    let e = EmulatorError::new(EmulatorErrorType::AudioInitFailed, "no device".to_string());
    assert_eq!(e.error_type, EmulatorErrorType::AudioInitFailed);
    assert_eq!(e.info, "no device");
    assert_eq!(e.error_type.message(), "Audio initialization failed!");
}

#[test]
fn shared_frame_starts_clear() {
    let f = SharedFrame::new();
    assert_eq!(f.pixels.len(), 256 * 240);
    assert!(!f.dirty);
    assert!(f.pixels.iter().all(|&p| p == 0));
}
