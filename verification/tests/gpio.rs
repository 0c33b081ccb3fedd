use e310x_gpio::gpio::{ClientHandle, InputMode, InterruptMode, Port};
use e310x_gpio::registers::GpioRegisters;

#[test]
fn make_output_sets_expected_bits_from_clear() {
    let port = Port::new();
    let mut regs = GpioRegisters::new();
    port.index(3).make_output(&mut regs);
    assert_eq!(regs.output_en, 1u32 << 3);
    assert_eq!(regs.iof_en, 0);
    assert_eq!(regs.drive, 0);
    assert_eq!(regs.out_xor, 0);
    assert_eq!(regs.input_en, 0);
    assert_eq!(regs.pullup, 0);
    assert_eq!(regs.port, 0);
    assert_eq!(regs.value, 0);
}

#[test]
fn make_output_touches_only_its_own_bit() {
    let port = Port::new();
    let mut regs = GpioRegisters::new();
    regs.drive = 0xFFFF_FFFF;
    regs.out_xor = 0xFFFF_FFFF;
    regs.output_en = 0xFFFF_FFFF;
    regs.iof_en = 0xFFFF_FFFF;
    regs.rise_ie = 0xDEAD_BEEF;
    port.index(3).make_output(&mut regs);
    assert_eq!(regs.drive, !(1u32 << 3));
    assert_eq!(regs.out_xor, !(1u32 << 3));
    assert_eq!(regs.output_en, 0xFFFF_FFFF);
    assert_eq!(regs.iof_en, !(1u32 << 3));
    assert_eq!(regs.rise_ie, 0xDEAD_BEEF);
}

#[test]
fn make_output_works_for_every_pin_index() {
    let port = Port::new();
    for i in 0..32usize {
        let mut regs = GpioRegisters::new();
        port.index(i).make_output(&mut regs);
        assert_eq!(regs.output_en, 1u32 << i);
        assert_eq!(regs.iof_en, 0);
    }
}

#[test]
fn make_input_sets_expected_bits() {
    let port = Port::new();
    let mut regs = GpioRegisters::new();
    regs.pullup = 0xFFFF_FFFF;
    regs.iof_en = 0xFFFF_FFFF;
    port.index(7).make_input(&mut regs);
    assert_eq!(regs.input_en, 1u32 << 7);
    assert_eq!(regs.pullup, !(1u32 << 7));
    assert_eq!(regs.iof_en, !(1u32 << 7));
    assert_eq!(regs.output_en, 0);
}

#[test]
fn make_input_works_for_every_pin_index() {
    let port = Port::new();
    for i in 0..32usize {
        let mut regs = GpioRegisters::new();
        regs.pullup = 0xFFFF_FFFF;
        port.index(i).make_input(&mut regs);
        assert_eq!(regs.input_en, 1u32 << i);
        assert_eq!(regs.pullup, !(1u32 << i));
    }
}

#[test]
fn set_then_read_round_trip() {
    let port = Port::new();
    let mut regs = GpioRegisters::new();
    let pin = port.index(9);
    pin.make_output(&mut regs);
    pin.set(&mut regs);
    // Simulate a pin wired to reflect its own output value.
    regs.value = regs.port;
    assert!(pin.read(&regs));
    pin.clear(&mut regs);
    regs.value = regs.port;
    assert!(!pin.read(&regs));
}

#[test]
fn set_and_clear_touch_only_the_port_register() {
    let port = Port::new();
    let mut regs = GpioRegisters::new();
    regs.port = 0b1010;
    port.index(0).set(&mut regs);
    assert_eq!(regs.port, 0b1011);
    port.index(1).clear(&mut regs);
    assert_eq!(regs.port, 0b1001);
    assert_eq!(regs.output_en, 0);
    assert_eq!(regs.value, 0);
}

#[test]
fn toggle_twice_restores_the_port_register() {
    let port = Port::new();
    let mut regs = GpioRegisters::new();
    regs.port = 0xA5A5_0F0F;
    let before = regs;
    let pin = port.index(4);
    pin.toggle(&mut regs);
    assert_eq!(regs.port, 0xA5A5_0F0F ^ (1u32 << 4));
    pin.toggle(&mut regs);
    assert_eq!(regs, before);
}

#[test]
fn toggle_is_confined_to_its_own_bit_under_interference() {
    let port = Port::new();
    let mut regs = GpioRegisters::new();
    let pin = port.index(2);
    pin.toggle(&mut regs);
    assert_eq!(regs.port & (1u32 << 2), 1u32 << 2);
    // Another agent rewrites a different pin's bit between the two toggles.
    regs.port ^= 1u32 << 7;
    pin.toggle(&mut regs);
    // This pin's bit is back at its starting level; the other bit keeps the
    // interfering agent's value.
    assert_eq!(regs.port & (1u32 << 2), 0);
    assert_eq!(regs.port & (1u32 << 7), 1u32 << 7);
}

#[test]
fn odd_toggle_count_flips_exactly_one_bit() {
    let port = Port::new();
    let mut regs = GpioRegisters::new();
    regs.port = 0x0000_FF00;
    let pin = port.index(10);
    pin.toggle(&mut regs);
    pin.toggle(&mut regs);
    pin.toggle(&mut regs);
    assert_eq!(regs.port, 0x0000_FF00 ^ (1u32 << 10));
}

#[test]
fn pull_up_sets_the_pullup_bit() {
    let port = Port::new();
    let mut regs = GpioRegisters::new();
    port.index(6).set_input_mode(&mut regs, InputMode::PullUp);
    assert_eq!(regs.pullup, 1u32 << 6);
    assert_eq!(regs.input_en, 0);
    assert_eq!(regs.iof_en, 0);
}

#[test]
fn pull_down_and_pull_none_produce_identical_states() {
    let port = Port::new();
    let pin = port.index(6);

    let mut down = GpioRegisters::new();
    down.pullup = 0xFFFF_FFFF;
    pin.set_input_mode(&mut down, InputMode::PullDown);

    let mut none = GpioRegisters::new();
    none.pullup = 0xFFFF_FFFF;
    pin.set_input_mode(&mut none, InputMode::PullNone);

    assert_eq!(down, none);
    assert_eq!(down.pullup, !(1u32 << 6));
}

#[test]
fn indexing_at_32_or_above_fails_closed() {
    let port = Port::new();
    assert!(port.get(32).is_none());
    assert!(port.get(33).is_none());
    assert!(port.get(usize::MAX).is_none());
    assert!(port.get(0).is_some());
    assert!(port.get(31).is_some());
}

#[test]
fn output_then_set_scenario() {
    let port = Port::new();
    let mut regs = GpioRegisters::new();
    port.index(5).make_output(&mut regs);
    port.index(5).set(&mut regs);
    assert_eq!(regs.output_en & (1u32 << 5), 1u32 << 5);
    assert_eq!(regs.iof_en & (1u32 << 5), 0);
    assert_eq!(regs.port & (1u32 << 5), 1u32 << 5);
    regs.value = regs.port;
    assert!(port.index(5).read(&regs));
}

#[test]
fn read_has_no_side_effect() {
    let port = Port::new();
    let mut regs = GpioRegisters::new();
    regs.value = 0x1234_5678;
    let before = regs;
    let high = port.index(4).read(&regs);
    assert_eq!(high, 0x1234_5678 & (1u32 << 4) != 0);
    assert_eq!(regs, before);
}

#[test]
fn stub_operations_alter_no_register() {
    let port = Port::new();
    let mut regs = GpioRegisters::new();
    regs.rise_ie = 0x55;
    regs.fall_ie = 0xAA;
    let before = regs;
    let pin = port.index(8);
    pin.disable();
    pin.enable_interrupt(99, InterruptMode::EitherEdge);
    pin.enable_interrupt(7, InterruptMode::RisingEdge);
    pin.enable_interrupt(7, InterruptMode::FallingEdge);
    pin.disable_interrupt();
    assert_eq!(regs, before);
}

#[test]
fn set_client_leaves_pin_behaviour_unchanged() {
    let mut port = Port::new();
    port.index_mut(11).set_client(ClientHandle(42));
    let mut regs = GpioRegisters::new();
    port.index(11).set(&mut regs);
    assert_eq!(regs.port, 1u32 << 11);
}
