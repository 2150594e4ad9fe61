use axi_uart_bridge::axi_gpio::{masked_update, AxiGpio, AxiGpioChannel};
use axi_uart_bridge::window::map_layout;

#[test]
fn change_bits_clears_then_sets() {
    let mut gpio = AxiGpio::new();
    gpio.write(AxiGpioChannel::Ch1, 0b10);
    gpio.change_bits(AxiGpioChannel::Ch1, 0b01, 0b10);
    assert_eq!(gpio.read(AxiGpioChannel::Ch1), 0b01);

    gpio.write(AxiGpioChannel::Ch1, 0b11);
    gpio.change_bits(AxiGpioChannel::Ch1, 0b01, 0b10);
    assert_eq!(gpio.read(AxiGpioChannel::Ch1), 0b01);
}

#[test]
fn change_bits_overlapping_masks_end_up_set() {
    let mut gpio = AxiGpio::new();
    gpio.write(AxiGpioChannel::Ch2, 0b00);
    gpio.change_bits(AxiGpioChannel::Ch2, 0b01, 0b01);
    assert_eq!(gpio.read(AxiGpioChannel::Ch2), 0b01);
}

#[test]
fn masked_update_matches_register_rule() {
    assert_eq!(masked_update(0b10, 0b01, 0b10), 0b01);
    assert_eq!(masked_update(0b11, 0b01, 0b10), 0b01);
    assert_eq!(masked_update(0b00, 0b01, 0b01), 0b01);
    assert_eq!(masked_update(0xffff_0000, 0x0000_00ff, 0xff00_0000), 0x00ff_00ff);
}

#[test]
fn channels_are_independent() {
    let mut gpio = AxiGpio::new();
    gpio.write(AxiGpioChannel::Ch1, 0xdead_beef);
    gpio.write(AxiGpioChannel::Ch2, 0x1234_5678);
    assert_eq!(gpio.read(AxiGpioChannel::Ch1), 0xdead_beef);
    assert_eq!(gpio.read(AxiGpioChannel::Ch2), 0x1234_5678);
    gpio.change_bits(AxiGpioChannel::Ch2, 0, 0xffff_ffff);
    assert_eq!(gpio.read(AxiGpioChannel::Ch1), 0xdead_beef);
    assert_eq!(gpio.read(AxiGpioChannel::Ch2), 0);
}

#[test]
fn direction_bits_set_and_clear() {
    let mut gpio = AxiGpio::new();
    // direction registers start at zero (all outputs)
    gpio.set_input(AxiGpioChannel::Ch2, 0b101);
    gpio.set_output(AxiGpioChannel::Ch2, 0b001);
    // reading the data register is unaffected by direction changes
    assert_eq!(gpio.read(AxiGpioChannel::Ch2), 0);
    // drive the reset-pulse sequence on channel 2 bit 0
    gpio.change_bits(AxiGpioChannel::Ch2, 1, 0);
    assert_eq!(gpio.read(AxiGpioChannel::Ch2), 1);
    gpio.set_output(AxiGpioChannel::Ch2, 1);
    gpio.change_bits(AxiGpioChannel::Ch2, 0, 1);
    assert_eq!(gpio.read(AxiGpioChannel::Ch2), 0);
}

#[test]
fn map_layout_offset_relative_mode() {
    let layout = map_layout(0x1000, None, 4096);
    assert_eq!(layout.map_offset, 0x2000);
    assert_eq!(layout.map_len, 4096);
    assert_eq!(layout.reg_offset, 0);
}

#[test]
fn map_layout_size_constrained_mode() {
    let layout = map_layout(0x1000, Some(32 * 1024 * 1024), 4096);
    assert_eq!(layout.map_offset, 0);
    assert_eq!(layout.map_len, 32 * 1024 * 1024);
    assert_eq!(layout.reg_offset, 0x1000);
}
