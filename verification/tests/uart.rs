use axi_uart_bridge::uart16550::{
    baud_divisor, configure_writes, lsr_rx_ready, lsr_tx_idle, lsr_tx_ready, AxiUart16550,
    UartCore, WouldBlock, UART_DLL, UART_DLM, UART_FCR, UART_LCR,
};

#[test]
fn divisor_for_known_pairs() {
    // 125000000 / (16 * 115200) = 67.79..., truncated toward zero
    assert_eq!(baud_divisor(125_000_000, 115_200), 67);
    // an exact pair
    assert_eq!(baud_divisor(1_843_200, 115_200), 1);
    // 100000000 / (16 * 9600) = 651.04...
    assert_eq!(baud_divisor(100_000_000, 9_600), 651);
    // clock exactly sixteen times the baud rate
    assert_eq!(baud_divisor(16 * 300, 300), 1);
}

#[test]
fn divisor_truncates_toward_zero() {
    // 1000000 / (16 * 115200) = 0.54... -> 0
    assert_eq!(baud_divisor(1_000_000, 115_200), 0);
}

#[test]
fn configure_write_sequence() {
    let plan = configure_writes(125_000_000, 115_200);
    let got: Vec<(usize, u32)> = plan.iter().map(|w| (w.offset, w.value)).collect();
    assert_eq!(
        got,
        vec![
            (UART_LCR, 0x80),
            (UART_DLL, 67),
            (UART_DLM, 0),
            (UART_LCR, 0x03),
            (UART_FCR, 0x06),
            (UART_FCR, 0x81),
        ]
    );
}

#[test]
fn configure_write_sequence_splits_divisor() {
    // divisor 651 = 0x28b: low byte 0x8b, high byte 0x02
    let plan = configure_writes(100_000_000, 9_600);
    assert_eq!(plan[1].value, 0x8b);
    assert_eq!(plan[2].value, 0x02);
}

#[test]
fn initialize_programs_registers() {
    let uart = AxiUart16550::new(UartCore::new(16));
    let uart = uart.initialize(125_000_000, 115_200);
    assert_eq!(uart.regs.dll, 67);
    assert_eq!(uart.regs.dlm, 0);
    assert_eq!(uart.regs.lcr, 0x03);
    assert_eq!(uart.regs.fcr, 0x81);
}

#[test]
fn initialized_driver_carries_traffic() {
    // the one-way transition consumes the unconfigured driver; byte I/O
    // exists only after it
    let uart = AxiUart16550::new(UartCore::new(4));
    let mut uart = uart.initialize(125_000_000, 115_200);
    assert_eq!(uart.poll_write(&vec![0xaa]), Ok(1));
    assert_eq!(uart.regs.tx_taken, vec![0xaa]);
}

#[test]
fn poll_read_not_ready() {
    let mut uart = AxiUart16550::new(UartCore::new(16)).initialize(125_000_000, 115_200);
    assert_eq!(uart.poll_read(8), Err(WouldBlock));
}

#[test]
fn poll_read_returns_available_bytes() {
    let mut uart = AxiUart16550::new(UartCore::new(16)).initialize(125_000_000, 115_200);
    uart.regs.push_rx_burst(vec![0x10, 0x20, 0x30]);
    uart.regs.idle_tick();
    // three bytes ready, room for eight: exactly the three injected bytes
    assert_eq!(uart.poll_read(8), Ok(vec![0x10, 0x20, 0x30]));
    // drained: back to not-ready
    assert_eq!(uart.poll_read(8), Err(WouldBlock));
}

#[test]
fn poll_read_respects_buffer_length() {
    let mut uart = AxiUart16550::new(UartCore::new(16)).initialize(125_000_000, 115_200);
    uart.regs.push_rx_burst(vec![1, 2, 3, 4, 5]);
    uart.regs.idle_tick();
    assert_eq!(uart.poll_read(3), Ok(vec![1, 2, 3]));
    assert_eq!(uart.poll_read(3), Ok(vec![4, 5]));
}

#[test]
fn try_read_byte_pops_in_order() {
    let mut uart = AxiUart16550::new(UartCore::new(16)).initialize(125_000_000, 115_200);
    assert_eq!(uart.try_read_byte(), None);
    uart.regs.push_rx_burst(vec![0x48, 0x49]);
    uart.regs.idle_tick();
    assert_eq!(uart.try_read_byte(), Some(0x48));
    assert_eq!(uart.try_read_byte(), Some(0x49));
    assert_eq!(uart.try_read_byte(), None);
}

#[test]
fn poll_write_not_ready_when_fifo_full() {
    let mut uart = AxiUart16550::new(UartCore::new(2)).initialize(125_000_000, 115_200);
    assert_eq!(uart.poll_write(&vec![1, 2]), Ok(2));
    // fifo full until the hardware drains it
    assert_eq!(uart.poll_write(&vec![3]), Err(WouldBlock));
    uart.regs.idle_tick();
    assert_eq!(uart.poll_write(&vec![3]), Ok(1));
    assert_eq!(uart.regs.tx_taken, vec![1, 2, 3]);
}

#[test]
fn poll_write_partial_on_long_buffer() {
    let mut uart = AxiUart16550::new(UartCore::new(4)).initialize(125_000_000, 115_200);
    let data: Vec<u8> = (0u8..10).collect();
    let written = uart.poll_write(&data).unwrap();
    // strictly fewer than the input length
    assert!(written < data.len());
    assert_eq!(written, 4);
    assert_eq!(uart.regs.tx_taken, vec![0, 1, 2, 3]);
}

#[test]
fn flush_reports_drain_state() {
    let mut uart = AxiUart16550::new(UartCore::new(4)).initialize(125_000_000, 115_200);
    assert_eq!(uart.flush(), Ok(()));
    uart.poll_write(&vec![0x55]).unwrap();
    assert_eq!(uart.flush(), Err(WouldBlock));
    uart.regs.idle_tick();
    assert_eq!(uart.flush(), Ok(()));
}

#[test]
fn line_status_bit_tests() {
    assert!(lsr_rx_ready(0x01));
    assert!(!lsr_rx_ready(0x60));
    assert!(lsr_tx_ready(0x20));
    assert!(!lsr_tx_ready(0x41));
    assert!(lsr_tx_idle(0x40));
    assert!(!lsr_tx_idle(0x21));
}

#[test]
fn read_lsr_reflects_core_state() {
    let mut core = UartCore::new(4);
    // fresh core: transmitter ready and idle, nothing to receive
    let lsr = core.read_lsr();
    assert!(!lsr_rx_ready(lsr));
    assert!(lsr_tx_ready(lsr));
    assert!(lsr_tx_idle(lsr));
    core.push_rx_burst(vec![0x7f]);
    core.idle_tick();
    core.write_thr(0xff);
    let lsr = core.read_lsr();
    assert!(lsr_rx_ready(lsr));
    assert!(lsr_tx_ready(lsr));
    assert!(!lsr_tx_idle(lsr));
}

#[test]
fn write_thr_keeps_low_byte() {
    let mut core = UartCore::new(4);
    core.write_thr(0x1234_56aa);
    assert_eq!(core.tx_taken, vec![0xaa]);
}
