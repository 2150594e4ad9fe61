//! Verified core of a PCIe-window UART bridge: a register-window
//! abstraction, an AXI GPIO driver, a polling 16550-style UART driver
//! with a two-phase lifecycle, and the duplex pump logic that moves
//! bytes between the UART FIFOs and an external byte stream.

pub mod axi_gpio;
pub mod bridge;
pub mod uart16550;
pub mod window;
