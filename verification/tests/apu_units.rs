use lib::apu::units::length_counter::LengthCounter;
use lib::nes::apu::pulse_channel::PulseChannel;
use lib::nes::apu::units::envelope::{Envelope, VolumeMode};

#[test]
fn length_counter_test_initial_state() {
    let lc = LengthCounter::new();
    assert_eq!(lc.halted, false);
    assert_eq!(lc.value, 0);
}

#[test]
fn test_set_value() {
    let mut lc = LengthCounter::new();
    lc.set(5);
    assert_eq!(lc.value, 4);
}

#[test]
fn test_clock_to_zero() {
    let mut lc = LengthCounter::new();
    lc.set(5);
    assert_eq!(lc.value, 4);
    assert_eq!(lc.clock(), true);
    assert_eq!(lc.value, 3);
    assert_eq!(lc.clock(), true);
    assert_eq!(lc.value, 2);
    assert_eq!(lc.clock(), true);
    assert_eq!(lc.value, 1);
    assert_eq!(lc.clock(), false);
    assert_eq!(lc.value, 0);
    assert_eq!(lc.clock(), false);
    assert_eq!(lc.value, 0);
}

#[test]
fn length_counter_halt_keeps_value() {
    let mut lc = LengthCounter::new();
    lc.set(1);
    lc.set_halt(true);
    assert_eq!(lc.value, 254);
    lc.clock();
    assert_eq!(lc.value, 254);
}

fn clock_envelope(env: &mut Envelope, clocks: usize) -> Vec<u8> {
    let mut outputs = Vec::with_capacity(clocks);
    for _ in 0..clocks {
        outputs.push(env.output());
        env.clock();
    }
    outputs
}

#[test]
fn test_envelope_start() {
    let mut env = Envelope::new();
    env.set(0b0001_1111);
    env.start();
    assert_eq!(env.decay, 15);
    assert_eq!(env.divider, env.period);
    assert!(!env.start);
}

#[test]
fn test_envelope_clock_countdown() {
    let mut env = Envelope::new();
    env.set(0b0000_0100);
    env.start();
    let outputs = clock_envelope(&mut env, 25);
    assert_eq!(outputs[0], 15);
    assert_eq!(outputs[4], 15);
    assert_eq!(outputs[5], 14);
    assert_eq!(outputs[9], 14);
    assert_eq!(outputs[10], 13);
}

#[test]
fn test_envelope_loop_flag() {
    let mut env = Envelope::new();
    env.set(0b0010_0011);
    env.start();
    let outputs = clock_envelope(&mut env, 70);
    assert!(outputs.contains(&0));
    assert!(outputs.contains(&15));
    let first_zero_index = outputs.iter().position(|&x| x == 0).unwrap();
    let next_fifteen_index = outputs
        .iter()
        .skip(first_zero_index)
        .position(|&x| x == 15)
        .unwrap();
    assert!(next_fifteen_index > 0);
}

#[test]
fn test_envelope_constant_volume() {
    let mut env = Envelope::new();
    env.set(0b0001_1010);
    env.start();
    let outputs = clock_envelope(&mut env, 20);
    for &o in &outputs {
        assert_eq!(o, env.constant_volume);
    }
}

#[test]
fn test_envelope_disable_false_decay() {
    let mut env = Envelope::new();
    env.set(0b0000_0101);
    env.start();
    let outputs = clock_envelope(&mut env, 40);
    let mut last_decay = outputs[0];
    for &curr_decay in &outputs[1..] {
        if curr_decay != last_decay {
            assert!(curr_decay < last_decay);
        }
        last_decay = curr_decay;
    }
}

#[test]
fn test_envelope_looping_multiple_times() {
    let mut env = Envelope::new();
    env.set(0b0010_0100);
    env.start();
    let outputs = clock_envelope(&mut env, 150);
    let first_zero_index = outputs.iter().position(|&v| v == 0).unwrap();
    let next_fifteen_index = outputs
        .iter()
        .enumerate()
        .skip(first_zero_index)
        .find(|&(_, &v)| v == 15)
        .unwrap()
        .0;
    assert!(first_zero_index < next_fifteen_index);
}

#[test]
fn pulse_channel_test_initial_state() {
    let channel1 = PulseChannel::new(true);
    assert_eq!(channel1.duty_cycle, 0);
    assert_eq!(channel1.sequence, 0);
    assert_eq!(channel1.seq_timer.output(), 0);
    assert_eq!(channel1.length_counter.output(), 0);
    assert_eq!(channel1.envelope.output(), 0);
    assert_eq!(channel1.sweep.is_enabled(), false);
    assert_eq!(channel1.sweep.get_period(), 0);
    assert_eq!(channel1.sweep.get_shift(), 0);
    assert_eq!(channel1.sample(), 0);
    let channel2 = PulseChannel::new(false);
    assert_eq!(channel2.duty_cycle, 0);
}

#[test]
fn test_write_4000_duty_cycle_and_sequence() {
    let mut channel = PulseChannel::new(true);
    channel.write_4000(0b0000_0000);
    assert_eq!(channel.duty_cycle, 0);
    assert_eq!(channel.sequence, 0b0100_0000);
    channel.write_4000(0b0100_0000);
    assert_eq!(channel.duty_cycle, 1);
    assert_eq!(channel.sequence, 0b0110_0000);
    channel.write_4000(0b1000_0000);
    assert_eq!(channel.duty_cycle, 2);
    assert_eq!(channel.sequence, 0b0111_1000);
    channel.write_4000(0b1100_0000);
    assert_eq!(channel.duty_cycle, 3);
    assert_eq!(channel.sequence, 0b1011_1111);
}

#[test]
fn test_write_4000_envelope_settings() {
    let mut channel = PulseChannel::new(true);
    channel.write_4000(0b0001_1010);
    assert_eq!(channel.envelope.get_volume_mode(), VolumeMode::Constant);
    assert_eq!(channel.envelope.get_divider_period(), 10);
    assert_eq!(channel.envelope.output(), 10);
    channel.write_4000(0b0010_0101);
    assert_eq!(channel.envelope.get_volume_mode(), VolumeMode::Envelope);
    assert_eq!(channel.envelope.get_divider_period(), 5);
    assert_eq!(channel.envelope.get_loop_flag(), true);
}

#[test]
fn test_write_4001_sweep_settings() {
    let mut channel = PulseChannel::new(true);
    channel.write_4001(0b1011_1010);
    assert_eq!(channel.sweep.is_enabled(), true);
    assert_eq!(channel.sweep.get_period(), 3);
    assert_eq!(channel.sweep.get_negate_flag(), true);
    assert_eq!(channel.sweep.get_shift(), 2);
    channel.write_4001(0b0000_0000);
    assert_eq!(channel.sweep.is_enabled(), false);
    assert_eq!(channel.sweep.get_period(), 0);
    assert_eq!(channel.sweep.get_negate_flag(), false);
    assert_eq!(channel.sweep.get_shift(), 0);
}

#[test]
fn test_write_4002_timer_low() {
    let mut channel = PulseChannel::new(true);
    channel.write_4002(0x12);
    assert_eq!(channel.seq_timer.get_reload_low_bits(), 0x12);
}

#[test]
fn test_write_4003_length_counter_and_timer_high() {
    let mut channel = PulseChannel::new(true);
    channel.write_4002(0x0F);
    channel.write_4003(0b0101_0101);
    assert_eq!(channel.length_counter.output(), 60);
    assert_eq!(channel.seq_timer.get_reload_high_bits(), 0b101);
    assert_eq!(channel.seq_timer.output(), (0b101 << 8) | 0x0F);
    assert_eq!(channel.envelope.get_start_flag(), true);
}

#[test]
fn pulse_channel_disable_silences() {
    let mut channel = PulseChannel::new(true);
    channel.write_4003(0b0101_0101);
    assert!(channel.is_enabled());
    channel.disable();
    assert!(!channel.is_enabled());
    assert_eq!(channel.sample(), 0);
}

#[test]
fn constant_volume_survives_any_starts_and_clocks() {
    let mut env = Envelope::new();
    env.set(0b0001_1010);
    for i in 0..100 {
        if i % 7 == 0 {
            env.start();
        } else {
            env.clock();
        }
        assert_eq!(env.output(), 10);
    }
}
