use lumiemu::apu::{Apu, NoiseChannel, PulseChannel, TriangleChannel};

#[test]
fn test_apu_creation() {
    let apu = Apu::new();
    assert_eq!(apu.cycle, 0);
    assert!(!apu.pulse1.enabled);
}

#[test]
fn test_enable_channels() {
    let mut apu = Apu::new();
    apu.write_register(0x4015, 0x0F); // Enable all channels except DMC

    assert!(apu.pulse1.enabled);
    assert!(apu.pulse2.enabled);
    assert!(apu.triangle.enabled);
    assert!(apu.noise.enabled);
    assert!(!apu.dmc.enabled);
}

#[test]
fn test_pulse_duty_cycles() {
    let mut pulse = PulseChannel::new();
    pulse.enabled = true;
    pulse.length_counter = 10;
    pulse.constant_volume = true;
    pulse.volume = 15;

    // Test 12.5% duty
    pulse.duty = 0;
    pulse.duty_position = 0;
    assert_eq!(pulse.output(), 0);
    pulse.duty_position = 1;
    assert_eq!(pulse.output(), 15);

    // Test 50% duty
    pulse.duty = 2;
    pulse.duty_position = 0;
    assert_eq!(pulse.output(), 0);
    pulse.duty_position = 2;
    assert_eq!(pulse.output(), 15);
}

#[test]
fn test_disable_forces_length_to_zero() {
    let mut apu = Apu::new();
    apu.write_register(0x4015, 0x0F);
    apu.write_register(0x4003, 0x08); // pulse 1 length load index 1 -> 254
    assert_eq!(apu.pulse1.length_counter, 254);
    apu.write_register(0x4015, 0x00); // disable everything
    assert_eq!(apu.pulse1.length_counter, 0);
    assert_eq!(apu.read_register(0x4015), 0);
}

#[test]
fn test_status_register_bits() {
    let mut apu = Apu::new();
    apu.write_register(0x4015, 0x0F);
    apu.write_register(0x4003, 0x00); // pulse 1: length index 0 -> 10
    apu.write_register(0x400B, 0x00); // triangle: length 10
    let status = apu.read_register(0x4015);
    assert_eq!(status, 0x05); // pulse 1 and triangle running
}

#[test]
fn test_envelope_decays_from_fifteen() {
    let mut p = PulseChannel::new();
    p.volume = 0; // divider period 0: decay every quarter-frame tick
    p.envelope_start = true;
    p.clock_envelope();
    assert_eq!(p.envelope_counter, 15);
    p.clock_envelope();
    assert_eq!(p.envelope_counter, 14);
    p.clock_envelope();
    assert_eq!(p.envelope_counter, 13);
}

#[test]
fn test_triangle_sequence_steps() {
    let mut t = TriangleChannel::new();
    t.enabled = true;
    t.timer_period = 2;
    t.length_counter = 10;
    t.linear_counter = 10;
    assert_eq!(t.output(), 15); // step 0 of the 15..0,0..15 sequence
    t.timer = 0;
    t.clock_timer(); // advance to step 1
    assert_eq!(t.output(), 14);
}

#[test]
fn test_triangle_ultrasonic_muted() {
    let mut t = TriangleChannel::new();
    t.enabled = true;
    t.timer_period = 1; // below 2: muted
    assert_eq!(t.output(), 0);
}

#[test]
fn test_noise_lfsr_never_zero() {
    let mut n = NoiseChannel::new();
    n.write_reg2(0x00); // shortest period, mode 0
    for _ in 0..100000 {
        n.timer = 0;
        n.clock_timer();
        assert_ne!(n.shift_register, 0);
        assert!(n.shift_register < 0x8000);
    }
    n.write_reg2(0x80); // mode 1
    for _ in 0..100000 {
        n.timer = 0;
        n.clock_timer();
        assert_ne!(n.shift_register, 0);
    }
}

#[test]
fn test_sweep_mutes_low_period() {
    let mut p = PulseChannel::new();
    p.enabled = true;
    p.length_counter = 10;
    p.constant_volume = true;
    p.volume = 7;
    p.duty = 2;
    p.duty_position = 2;
    p.timer_period = 4; // below 8: sweep mutes while active
    p.write_reg1(0x81); // sweep enabled, shift 1
    p.clock_sweep();
    assert_eq!(p.output(), 0);
    p.write_reg1(0x00); // sweep disabled again
    p.clock_sweep();
    assert_eq!(p.output(), 7);
}

#[test]
fn test_frame_sequencer_clocks_length() {
    let mut apu = Apu::new();
    apu.write_register(0x4015, 0x01);
    apu.write_register(0x4000, 0x00); // no halt, envelope mode
    apu.write_register(0x4003, 0x08); // length 254
    // Step the sequencer through a half-frame tick (steps 0 then 1).
    for _ in 0..(7457 * 2) {
        apu.clock();
    }
    assert!(apu.pulse1.length_counter < 254);
}
