//! Polling driver for a 16550-style AXI UART core.
//!
//! The core's register block and line behaviour are modeled by
//! [`UartCore`]: the receive FIFO holds the bytes readable right now,
//! further bursts arrive after idle intervals, and the transmit FIFO
//! accepts a bounded number of bytes between drains.  The driver itself
//! is a two-phase state machine: an `Uninitialized` driver can only be
//! configured, and configuration is one-way and consumes it; byte
//! traffic exists only on the `Initialized` phase.

use vstd::prelude::*;
use core::marker::PhantomData;

verus! {

/// Byte offset of the receive buffer register (read side of slot 0).
pub const UART_RBR: usize = 0x00;

/// Byte offset of the transmit holding register (write side of slot 0).
pub const UART_THR: usize = 0x00;

/// Byte offset of the divisor latch low register (aliases slot 0 while
/// the divisor-latch-access bit of the line control register is set).
pub const UART_DLL: usize = 0x00;

/// Byte offset of the divisor latch high register (aliases slot 1 while
/// the divisor-latch-access bit of the line control register is set).
pub const UART_DLM: usize = 0x04;

/// Byte offset of the FIFO control register.
pub const UART_FCR: usize = 0x08;

/// Byte offset of the line control register.
pub const UART_LCR: usize = 0x0c;

/// Byte offset of the modem control register.
pub const UART_MCR: usize = 0x10;

/// Byte offset of the line status register.
pub const UART_LSR: usize = 0x14;

/// Byte offset of the modem status register.
pub const UART_MSR: usize = 0x18;

/// Byte offset of the scratch register.
pub const UART_SCR: usize = 0x1c;

/// Receive-data-ready bit of the line status register.
pub const LSR_RX_READY: u32 = 0x01;

/// Transmit-holding-empty bit of the line status register.
pub const LSR_TX_READY: u32 = 0x20;

/// Transmit-FIFO-empty bit of the line status register.
pub const LSR_TX_IDLE: u32 = 0x40;

/// Divisor-latch-access bit of the line control register.
pub const LCR_DLAB: u32 = 0x80;

/// Transient "hardware not ready" signal: never fatal, resolved by the
/// caller retrying after an idle interval.
#[derive(Debug, Clone, Copy, PartialEq, Eq, Structural)]
pub struct WouldBlock;

/// Tests the receive-data-ready bit of a line-status value.
pub fn lsr_rx_ready(lsr: u32) -> (r: bool)
    ensures
        r == (lsr & LSR_RX_READY != 0),
{
    lsr & LSR_RX_READY != 0
}

/// Tests the transmit-holding-empty bit of a line-status value.
pub fn lsr_tx_ready(lsr: u32) -> (r: bool)
    ensures
        r == (lsr & LSR_TX_READY != 0),
{
    lsr & LSR_TX_READY != 0
}

/// Tests the transmit-FIFO-empty bit of a line-status value.
pub fn lsr_tx_idle(lsr: u32) -> (r: bool)
    ensures
        r == (lsr & LSR_TX_IDLE != 0),
{
    lsr & LSR_TX_IDLE != 0
}

/// Baud-rate divisor of a 16550-style core: the core clock divided by
/// sixteen times the target baud rate, truncated toward zero.  Callers
/// that need higher baud accuracy must pre-adjust the clock value.
pub open spec fn spec_divisor(core_clock_hz: u32, target_baud: u32) -> int {
    core_clock_hz as int / (16 * target_baud as int)
}

/// Computes the baud-rate divisor with integer truncation.
pub fn baud_divisor(core_clock_hz: u32, target_baud: u32) -> (r: u32)
    requires
        target_baud > 0,
        16 * target_baud <= u32::MAX,
    ensures
        r == spec_divisor(core_clock_hz, target_baud),
{
    core_clock_hz / (16 * target_baud)
}

/// One programmed register write: a byte offset within the UART register
/// block and the value to store there.
pub struct RegWrite {
    pub offset: usize,
    pub value: u32,
}

/// The exact register-write sequence that configures the core: open the
/// divisor latches, program the divisor low and high bytes, set the
/// frame format (8 data bits, no parity, 1 stop bit, latches closed),
/// purge both FIFOs, then enable them.  An unverified register backend
/// replays these writes in order against the mapped hardware.
pub fn configure_writes(core_clock_hz: u32, target_baud: u32) -> (r: Vec<RegWrite>)
    requires
        target_baud > 0,
        16 * target_baud <= u32::MAX,
    ensures
        ({
            let divisor = spec_divisor(core_clock_hz, target_baud) as u32;
            &&& r@.len() == 6
            &&& r@[0].offset == UART_LCR && r@[0].value == 0x80
            &&& r@[1].offset == UART_DLL && r@[1].value == divisor & 0xff
            &&& r@[2].offset == UART_DLM && r@[2].value == divisor >> 8
            &&& r@[3].offset == UART_LCR && r@[3].value == 0x03
            &&& r@[4].offset == UART_FCR && r@[4].value == 0x06
            &&& r@[5].offset == UART_FCR && r@[5].value == 0x81
        }),
{
    let divisor = baud_divisor(core_clock_hz, target_baud);
    let mut r: Vec<RegWrite> = Vec::new();
    r.push(RegWrite { offset: UART_LCR, value: 0x80 });
    r.push(RegWrite { offset: UART_DLL, value: divisor & 0xff });
    r.push(RegWrite { offset: UART_DLM, value: divisor >> 8 });
    r.push(RegWrite { offset: UART_LCR, value: 0x03 });
    r.push(RegWrite { offset: UART_FCR, value: 0x06 });
    r.push(RegWrite { offset: UART_FCR, value: 0x81 });
    r
}

/// The bytes carried by a sequence of receive bursts, oldest first.
pub open spec fn bursts_bytes(ws: Seq<Seq<u8>>) -> Seq<u8>
    decreases ws.len(),
{
    if ws.len() <= 0 {
        Seq::empty()
    } else {
        ws[0] + bursts_bytes(ws.skip(1))
    }
}

/// The observable state of the UART core: the modeled line traffic on
/// both directions and the programmed register values.
pub ghost struct UartModel {
    /// Bytes sitting in the receive FIFO, readable right now.
    pub rx_fifo: Seq<u8>,
    /// Bursts the line delivers after later idle intervals, oldest first.
    pub rx_pending: Seq<Seq<u8>>,
    /// Transmit FIFO capacity restored whenever the core drains.
    pub tx_burst: int,
    /// Bytes the transmit FIFO still accepts before the next drain.
    pub tx_room: int,
    /// Every byte the core has accepted for transmission, oldest first.
    pub tx_taken: Seq<u8>,
    pub fcr: u32,
    pub lcr: u32,
    pub mcr: u32,
    pub scr: u32,
    pub dll: u32,
    pub dlm: u32,
}

impl UartModel {
    /// All receive traffic still to be seen, oldest first.
    pub open spec fn rx_all(self) -> Seq<u8> {
        self.rx_fifo + bursts_bytes(self.rx_pending)
    }

    /// The receive-data-ready condition.
    pub open spec fn rx_ready(self) -> bool {
        self.rx_fifo.len() > 0
    }

    /// The transmit-holding-empty condition.
    pub open spec fn tx_ready(self) -> bool {
        self.tx_room > 0
    }

    /// The transmit-FIFO-empty condition.
    pub open spec fn tx_idle(self) -> bool {
        self.tx_room == self.tx_burst
    }

    /// The transmit FIFO never holds more than one drain's worth of room.
    pub open spec fn wf(self) -> bool {
        0 <= self.tx_room <= self.tx_burst
    }
}

/// Register-level model of the UART core: the mapped register block
/// together with the line traffic it will carry.
pub struct UartCore {
    /// Bytes sitting in the receive FIFO right now.
    pub rx_fifo: Vec<u8>,
    /// Bursts the line delivers after later idle intervals, oldest first.
    pub rx_pending: Vec<Vec<u8>>,
    /// Transmit FIFO capacity restored whenever the core drains.
    pub tx_burst: usize,
    /// Bytes the transmit FIFO still accepts before the next drain.
    pub tx_room: usize,
    /// Every byte the core has accepted for transmission, oldest first.
    pub tx_taken: Vec<u8>,
    pub fcr: u32,
    pub lcr: u32,
    pub mcr: u32,
    pub scr: u32,
    pub dll: u32,
    pub dlm: u32,
}

impl View for UartCore {
    type V = UartModel;

    open spec fn view(&self) -> UartModel {
        UartModel {
            rx_fifo: self.rx_fifo@,
            rx_pending: self.rx_pending@.map_values(|w: Vec<u8>| w@),
            tx_burst: self.tx_burst as int,
            tx_room: self.tx_room as int,
            tx_taken: self.tx_taken@,
            fcr: self.fcr,
            lcr: self.lcr,
            mcr: self.mcr,
            scr: self.scr,
            dll: self.dll,
            dlm: self.dlm,
        }
    }
}

impl UartCore {
    /// A freshly mapped core: no line traffic yet, transmit FIFO drained,
    /// registers in their reset state.
    pub fn new(tx_burst: usize) -> (r: Self)
        ensures
            r@ == (UartModel {
                rx_fifo: Seq::<u8>::empty(),
                rx_pending: Seq::<Seq<u8>>::empty(),
                tx_burst: tx_burst as int,
                tx_room: tx_burst as int,
                tx_taken: Seq::<u8>::empty(),
                fcr: 0,
                lcr: 0,
                mcr: 0,
                scr: 0,
                dll: 0,
                dlm: 0,
            }),
    {
        let r = UartCore {
            rx_fifo: Vec::new(),
            rx_pending: Vec::new(),
            tx_burst,
            tx_room: tx_burst,
            tx_taken: Vec::new(),
            fcr: 0,
            lcr: 0,
            mcr: 0,
            scr: 0,
            dll: 0,
            dlm: 0,
        };
        proof {
            assert(r.rx_pending@.map_values(|w: Vec<u8>| w@) =~= Seq::<Seq<u8>>::empty());
        }
        r
    }

    /// Queues one receive burst: it becomes readable as one ready window
    /// after the FIFO has drained and an idle interval has passed.
    pub fn push_rx_burst(&mut self, bytes: Vec<u8>)
        ensures
            final(self)@ == (UartModel {
                rx_pending: old(self)@.rx_pending.push(bytes@),
                ..old(self)@
            }),
    {
        self.rx_pending.push(bytes);
        proof {
            assert(self.rx_pending@.map_values(|w: Vec<u8>| w@)
                =~= old(self)@.rx_pending.push(bytes@));
        }
    }

    /// Reads the line status register: data-ready, transmit-holding-empty
    /// and transmit-FIFO-empty bits.
    pub fn read_lsr(&self) -> (r: u32)
        ensures
            (r & LSR_RX_READY != 0) == self@.rx_ready(),
            (r & LSR_TX_READY != 0) == self@.tx_ready(),
            (r & LSR_TX_IDLE != 0) == self@.tx_idle(),
    {
        let a = self.rx_fifo.len() > 0;
        let b = self.tx_room > 0;
        let c = self.tx_room == self.tx_burst;
        let r: u32 = (if a { 0x01u32 } else { 0u32 }) | (if b { 0x20u32 } else { 0u32 })
            | (if c { 0x40u32 } else { 0u32 });
        proof {
            assert((r & 0x01u32 != 0) == a && (r & 0x20u32 != 0) == b && (r & 0x40u32 != 0) == c)
                by (bit_vector)
                requires
                    r == (if a { 0x01u32 } else { 0u32 } | if b { 0x20u32 } else { 0u32 }
                        | if c { 0x40u32 } else { 0u32 }),
            ;
        }
        r
    }

    /// Pops one byte from the receive FIFO through the receive buffer
    /// register; only the low byte of the register is meaningful.
    pub fn read_rbr(&mut self) -> (r: u32)
        requires
            old(self)@.rx_ready(),
        ensures
            r == old(self)@.rx_fifo[0] as u32,
            final(self)@ == (UartModel { rx_fifo: old(self)@.rx_fifo.skip(1), ..old(self)@ }),
    {
        let b = self.rx_fifo.remove(0);
        proof {
            assert(old(self)@.rx_fifo.remove(0) =~= old(self)@.rx_fifo.skip(1));
        }
        b as u32
    }

    /// Pushes the low byte of `v` into the transmit holding register.
    pub fn write_thr(&mut self, v: u32)
        requires
            old(self)@.tx_ready(),
        ensures
            final(self)@ == (UartModel {
                tx_room: old(self)@.tx_room - 1,
                tx_taken: old(self)@.tx_taken.push((v & 0xff) as u8),
                ..old(self)@
            }),
    {
        proof {
            assert(v & 0xffu32 <= 0xffu32) by (bit_vector);
        }
        self.tx_taken.push((v & 0xff) as u8);
        self.tx_room = self.tx_room - 1;
    }

    /// Writes the line control register.
    pub fn write_lcr(&mut self, v: u32)
        ensures
            final(self)@ == (UartModel { lcr: v, ..old(self)@ }),
    {
        self.lcr = v;
    }

    /// Writes the FIFO control register.
    pub fn write_fcr(&mut self, v: u32)
        ensures
            final(self)@ == (UartModel { fcr: v, ..old(self)@ }),
    {
        self.fcr = v;
    }

    /// Writes the divisor latch low register; legal only while the
    /// divisor-latch-access bit of the line control register is set.
    pub fn write_dll(&mut self, v: u32)
        requires
            old(self)@.lcr & LCR_DLAB != 0,
        ensures
            final(self)@ == (UartModel { dll: v, ..old(self)@ }),
    {
        self.dll = v;
    }

    /// Writes the divisor latch high register; legal only while the
    /// divisor-latch-access bit of the line control register is set.
    pub fn write_dlm(&mut self, v: u32)
        requires
            old(self)@.lcr & LCR_DLAB != 0,
        ensures
            final(self)@ == (UartModel { dlm: v, ..old(self)@ }),
    {
        self.dlm = v;
    }

    /// The line has gone quiet: nothing in the receive FIFO and no
    /// pending bursts.
    pub open spec fn rx_exhausted(&self) -> bool {
        self@.rx_fifo.len() == 0 && self@.rx_pending.len() == 0
    }

    /// Tests whether any receive traffic is still to come.
    pub fn has_rx_traffic(&self) -> (r: bool)
        ensures
            r == !self.rx_exhausted(),
    {
        self.rx_fifo.len() > 0 || self.rx_pending.len() > 0
    }

    /// The hardware makes progress during one idle interval: the transmit
    /// FIFO drains, and if the receive FIFO is empty the next pending
    /// burst arrives.
    pub fn idle_tick(&mut self)
        ensures
            final(self)@.tx_room == final(self)@.tx_burst,
            final(self)@.rx_all() == old(self)@.rx_all(),
            final(self)@ == (UartModel {
                rx_fifo: final(self)@.rx_fifo,
                rx_pending: final(self)@.rx_pending,
                tx_room: final(self)@.tx_burst,
                ..old(self)@
            }),
            old(self)@.rx_fifo.len() == 0 && old(self)@.rx_pending.len() > 0 ==> (
                final(self)@.rx_fifo == old(self)@.rx_pending[0]
                && final(self)@.rx_pending == old(self)@.rx_pending.skip(1)),
            !(old(self)@.rx_fifo.len() == 0 && old(self)@.rx_pending.len() > 0) ==> (
                final(self)@.rx_fifo == old(self)@.rx_fifo
                && final(self)@.rx_pending == old(self)@.rx_pending),
    {
        self.tx_room = self.tx_burst;
        if self.rx_fifo.len() == 0 && self.rx_pending.len() > 0 {
            let w = self.rx_pending.remove(0);
            self.rx_fifo = w;
            proof {
                let ws = old(self)@.rx_pending;
                assert(self.rx_pending@.map_values(|x: Vec<u8>| x@) =~= ws.skip(1));
                assert(old(self)@.rx_fifo + bursts_bytes(ws) =~= bursts_bytes(ws));
                assert(bursts_bytes(ws) == ws[0] + bursts_bytes(ws.skip(1)));
            }
        }
    }
}

/// Phase tag of the driver lifecycle.
pub trait State {}

/// Registers mapped; baud and frame format not yet programmed.
pub struct Uninitialized {}

impl State for Uninitialized {}

/// Baud programmed and FIFOs enabled; byte traffic is legal.
pub struct Initialized {}

impl State for Initialized {}

/// Marker carried by a driver in phase `S`.  Its field is private, so a
/// driver in a given phase can only be built inside this module: the
/// one-way lifecycle cannot be bypassed from outside.
pub struct PhaseTag<S: State> {
    _phase: PhantomData<S>,
}

/// Polling driver for one UART core.  The phase tag is compile-time
/// only: byte I/O exists only on the `Initialized` phase, and the only
/// way to reach it is the one-way `initialize` call, which consumes the
/// `Uninitialized` driver.
pub struct AxiUart16550<S: State> {
    /// The mapped register block and its modeled line traffic.
    pub regs: UartCore,
    pub tag: PhaseTag<S>,
}

impl AxiUart16550<Uninitialized> {
    /// Takes ownership of a mapped register block, not yet configured.
    pub fn new(regs: UartCore) -> (r: Self)
        ensures
            r.regs@ == regs@,
    {
        AxiUart16550 { regs, tag: PhaseTag { _phase: PhantomData } }
    }

    /// One-way configuration: opens the divisor latches, programs the
    /// baud divisor, sets the frame format to 8 data bits, no parity,
    /// 1 stop bit (which also closes the latches), purges both FIFOs and
    /// re-enables them.  Consumes the unconfigured driver; register
    /// writes cannot fail, so neither can this call.
    pub fn initialize(self, core_freq_hz: u32, baud_rate_hz: u32) -> (r: AxiUart16550<
        Initialized,
    >)
        requires
            baud_rate_hz > 0,
            16 * baud_rate_hz <= u32::MAX,
        ensures
            ({
                let divisor = spec_divisor(core_freq_hz, baud_rate_hz) as u32;
                r.regs@ == (UartModel {
                    lcr: 0x03,
                    fcr: 0x81,
                    dll: divisor & 0xff,
                    dlm: divisor >> 8,
                    ..self.regs@
                })
            }),
    {
        let divisor = baud_divisor(core_freq_hz, baud_rate_hz);
        let mut regs = self.regs;
        proof {
            assert(0x80u32 & 0x80u32 != 0) by (bit_vector);
        }
        regs.write_lcr(0x80);  // open the divisor latches
        regs.write_dll(divisor & 0xff);
        regs.write_dlm(divisor >> 8);
        regs.write_lcr(0b0000_0011);  // 8 data bits, no parity, 1 stop; latches closed
        regs.write_fcr(0b0000_0110);  // purge both FIFOs
        regs.write_fcr(0b1000_0001);  // enable FIFOs
        AxiUart16550 { regs, tag: PhaseTag { _phase: PhantomData } }
    }
}

impl AxiUart16550<Initialized> {
    /// The receive-data-ready bit of the line status register.
    fn rx_ready(&self) -> (r: bool)
        ensures
            r == self.regs@.rx_ready(),
    {
        lsr_rx_ready(self.regs.read_lsr())
    }

    /// The transmit-holding-empty bit of the line status register.
    fn tx_ready(&self) -> (r: bool)
        ensures
            r == self.regs@.tx_ready(),
    {
        lsr_tx_ready(self.regs.read_lsr())
    }

    /// Non-blocking single-byte receive: nothing when the FIFO is empty,
    /// otherwise the oldest byte.
    pub fn try_read_byte(&mut self) -> (r: Option<u8>)
        ensures
            !old(self).regs@.rx_ready() ==> r is None && final(self).regs@ == old(self).regs@,
            old(self).regs@.rx_ready() ==> (r == Some(old(self).regs@.rx_fifo[0])
                && final(self).regs@ == (UartModel {
                rx_fifo: old(self).regs@.rx_fifo.skip(1),
                ..old(self).regs@
            })),
    {
        if !self.rx_ready() {
            return None;
        }
        let v = self.regs.read_rbr();
        proof {
            let b = old(self).regs@.rx_fifo[0];
            assert(v == b as u32);
            assert(v & 0xffu32 == v) by (bit_vector)
                requires
                    v <= 0xffu32,
            ;
        }
        Some((v & 0xff) as u8)
    }

    /// Non-blocking receive: signals not-ready when the FIFO is empty;
    /// otherwise drains bytes one at a time, re-checking readiness after
    /// each, until the FIFO clears or `max_len` bytes were taken, and
    /// returns them in arrival order.
    pub fn poll_read(&mut self, max_len: usize) -> (r: Result<Vec<u8>, WouldBlock>)
        ensures
            !old(self).regs@.rx_ready() ==> (r is Err && final(self).regs@ == old(self).regs@),
            old(self).regs@.rx_ready() ==> ({
                let n = if max_len as int <= old(self).regs@.rx_fifo.len() {
                    max_len as int
                } else {
                    old(self).regs@.rx_fifo.len() as int
                };
                &&& r matches Ok(bytes) && bytes@ == old(self).regs@.rx_fifo.take(n)
                &&& final(self).regs@ == (UartModel {
                    rx_fifo: old(self).regs@.rx_fifo.skip(n),
                    ..old(self).regs@
                })
            }),
    {
        if !self.rx_ready() {
            return Err(WouldBlock);
        }
        let ghost fifo0 = self.regs@.rx_fifo;
        let ghost orig = self.regs@;
        let mut out: Vec<u8> = Vec::new();
        proof {
            assert(fifo0.take(0) =~= out@);
            assert(fifo0.skip(0) =~= fifo0);
        }
        loop
            invariant
                out@.len() <= max_len,
                out@.len() <= fifo0.len(),
                out@ == fifo0.take(out@.len() as int),
                self.regs@ == (UartModel { rx_fifo: fifo0.skip(out@.len() as int), ..orig }),
            ensures
                out@.len() == (if max_len as int <= fifo0.len() {
                    max_len as int
                } else {
                    fifo0.len() as int
                }),
                out@ == fifo0.take(out@.len() as int),
                self.regs@ == (UartModel { rx_fifo: fifo0.skip(out@.len() as int), ..orig }),
            decreases fifo0.len() - out@.len(),
        {
            if !(self.rx_ready() && out.len() < max_len) {
                break;
            }
            let ghost k = out@.len() as int;
            let v = self.regs.read_rbr();
            proof {
                assert(fifo0.skip(k)[0] == fifo0[k]);
                assert(v == fifo0[k] as u32);
                assert(v & 0xffu32 == v) by (bit_vector)
                    requires
                        v <= 0xffu32,
                ;
                assert(fifo0.take(k).push(fifo0[k]) =~= fifo0.take(k + 1));
                assert(fifo0.skip(k).skip(1) =~= fifo0.skip(k + 1));
            }
            out.push((v & 0xff) as u8);
        }
        Ok(out)
    }

    /// Non-blocking transmit: signals not-ready when the holding register
    /// is full; otherwise writes bytes one at a time, re-checking
    /// readiness after each, and returns how many were accepted.  Partial
    /// writes are expected; the caller retries the remainder.
    pub fn poll_write(&mut self, bytes: &Vec<u8>) -> (r: Result<usize, WouldBlock>)
        ensures
            !old(self).regs@.tx_ready() ==> (r is Err && final(self).regs@ == old(self).regs@),
            old(self).regs@.tx_ready() ==> ({
                let n = if old(self).regs@.tx_room <= bytes@.len() {
                    old(self).regs@.tx_room
                } else {
                    bytes@.len() as int
                };
                &&& r matches Ok(count) && count == n
                &&& final(self).regs@ == (UartModel {
                    tx_room: old(self).regs@.tx_room - n,
                    tx_taken: old(self).regs@.tx_taken + bytes@.take(n),
                    ..old(self).regs@
                })
            }),
    {
        if !self.tx_ready() {
            return Err(WouldBlock);
        }
        let ghost orig = self.regs@;
        let mut count: usize = 0;
        proof {
            assert(orig.tx_taken + bytes@.take(0) =~= orig.tx_taken);
        }
        loop
            invariant
                count <= bytes@.len(),
                count <= orig.tx_room,
                self.regs@ == (UartModel {
                    tx_room: orig.tx_room - count,
                    tx_taken: orig.tx_taken + bytes@.take(count as int),
                    ..orig
                }),
            ensures
                count == (if orig.tx_room <= bytes@.len() {
                    orig.tx_room
                } else {
                    bytes@.len() as int
                }),
                self.regs@ == (UartModel {
                    tx_room: orig.tx_room - count,
                    tx_taken: orig.tx_taken + bytes@.take(count as int),
                    ..orig
                }),
            decreases orig.tx_room - count,
        {
            if !(self.tx_ready() && count < bytes.len()) {
                break;
            }
            let ghost k = count as int;
            let v = bytes[count] as u32;
            proof {
                assert((v & 0xffu32) == v) by (bit_vector)
                    requires
                        v <= 0xffu32,
                ;
                assert((v & 0xff) as u8 == bytes@[k]);
                assert(orig.tx_taken + bytes@.take(k) + seq![bytes@[k]] =~= orig.tx_taken
                    + bytes@.take(k + 1));
            }
            self.regs.write_thr(v);
            count = count + 1;
            proof {
                assert(self.regs@.tx_taken =~= orig.tx_taken + bytes@.take(count as int));
            }
        }
        Ok(count)
    }

    /// Drain check: succeeds only when the transmit FIFO is empty;
    /// otherwise signals not-ready and the caller retries.
    pub fn flush(&self) -> (r: Result<(), WouldBlock>)
        ensures
            r is Ok <==> self.regs@.tx_idle(),
    {
        if lsr_tx_idle(self.regs.read_lsr()) {
            Ok(())
        } else {
            Err(WouldBlock)
        }
    }
}

} // verus!
