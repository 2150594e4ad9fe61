//! Two-channel AXI GPIO driver: each channel has a 32-bit data register
//! and a 32-bit tri-state (direction) register, with no cross-channel
//! coupling.  Direction bits follow AXI GPIO convention: 1 is input,
//! 0 is output.

use vstd::prelude::*;
use crate::window::RegisterWindow;

verus! {

/// Byte offset of the channel-1 data register.
pub const GPIO_CH1_DATA: usize = 0x0;

/// Byte offset of the channel-1 tri-state register.
pub const GPIO_CH1_TRI: usize = 0x4;

/// Byte offset of the channel-2 data register.
pub const GPIO_CH2_DATA: usize = 0x8;

/// Byte offset of the channel-2 tri-state register.
pub const GPIO_CH2_TRI: usize = 0xc;

/// The two independent channels of the GPIO block.
#[derive(Debug, Clone, Copy, PartialEq, Eq, Structural)]
pub enum AxiGpioChannel {
    Ch1,
    Ch2,
}

/// New register value after a masked read-modify-write: the cleared bits
/// are removed first, then the set bits are applied, so a bit present in
/// both masks ends up set.
pub fn masked_update(current: u32, set_bits: u32, clear_bits: u32) -> (r: u32)
    ensures
        r == (current & !clear_bits) | set_bits,
{
    (current & !clear_bits) | set_bits
}

/// The observable state of the GPIO block: both data registers and both
/// tri-state registers.
pub ghost struct GpioModel {
    pub ch1_data: u32,
    pub ch1_tri: u32,
    pub ch2_data: u32,
    pub ch2_tri: u32,
}

/// GPIO driver over a register window of four 32-bit slots.
pub struct AxiGpio {
    win: RegisterWindow,
}

impl View for AxiGpio {
    type V = GpioModel;

    closed spec fn view(&self) -> GpioModel {
        GpioModel {
            ch1_data: self.win@[0],
            ch1_tri: self.win@[1],
            ch2_data: self.win@[2],
            ch2_tri: self.win@[3],
        }
    }
}

impl AxiGpio {
    /// The register window holds exactly the four GPIO slots.
    pub closed spec fn wf(&self) -> bool {
        self.win@.len() == 4
    }

    /// The data register of a channel.
    pub open spec fn data(&self, ch: AxiGpioChannel) -> u32 {
        match ch {
            AxiGpioChannel::Ch1 => self@.ch1_data,
            AxiGpioChannel::Ch2 => self@.ch2_data,
        }
    }

    /// The tri-state register of a channel.
    pub open spec fn tri(&self, ch: AxiGpioChannel) -> u32 {
        match ch {
            AxiGpioChannel::Ch1 => self@.ch1_tri,
            AxiGpioChannel::Ch2 => self@.ch2_tri,
        }
    }

    /// Maps a fresh GPIO register block; every register reads zero.
    pub fn new() -> (r: Self)
        ensures
            r.wf(),
            r@ == (GpioModel { ch1_data: 0, ch1_tri: 0, ch2_data: 0, ch2_tri: 0 }),
    {
        AxiGpio { win: RegisterWindow::open_window(0x10) }
    }

    /// Reads the data register of `ch`.
    pub fn read(&self, ch: AxiGpioChannel) -> (r: u32)
        requires
            self.wf(),
        ensures
            r == self.data(ch),
    {
        match ch {
            AxiGpioChannel::Ch1 => self.win.read_reg(GPIO_CH1_DATA),
            AxiGpioChannel::Ch2 => self.win.read_reg(GPIO_CH2_DATA),
        }
    }

    /// Writes the data register of `ch`; every other register is unchanged.
    pub fn write(&mut self, ch: AxiGpioChannel, value: u32)
        requires
            old(self).wf(),
        ensures
            final(self).wf(),
            final(self)@ == (match ch {
                AxiGpioChannel::Ch1 => GpioModel { ch1_data: value, ..old(self)@ },
                AxiGpioChannel::Ch2 => GpioModel { ch2_data: value, ..old(self)@ },
            }),
    {
        match ch {
            AxiGpioChannel::Ch1 => self.win.write_reg(GPIO_CH1_DATA, value),
            AxiGpioChannel::Ch2 => self.win.write_reg(GPIO_CH2_DATA, value),
        }
    }

    /// Reads the tri-state register of `ch`.
    fn tristate(&self, ch: AxiGpioChannel) -> (r: u32)
        requires
            self.wf(),
        ensures
            r == self.tri(ch),
    {
        match ch {
            AxiGpioChannel::Ch1 => self.win.read_reg(GPIO_CH1_TRI),
            AxiGpioChannel::Ch2 => self.win.read_reg(GPIO_CH2_TRI),
        }
    }

    /// Writes the tri-state register of `ch`; every other register is
    /// unchanged.
    fn set_tristate(&mut self, ch: AxiGpioChannel, value: u32)
        requires
            old(self).wf(),
        ensures
            final(self).wf(),
            final(self)@ == (match ch {
                AxiGpioChannel::Ch1 => GpioModel { ch1_tri: value, ..old(self)@ },
                AxiGpioChannel::Ch2 => GpioModel { ch2_tri: value, ..old(self)@ },
            }),
    {
        match ch {
            AxiGpioChannel::Ch1 => self.win.write_reg(GPIO_CH1_TRI, value),
            AxiGpioChannel::Ch2 => self.win.write_reg(GPIO_CH2_TRI, value),
        }
    }

    /// One read-modify-write of the data register of `ch`: clears
    /// `clear_bits`, then sets `set_bits`, so a bit present in both masks
    /// ends up set.
    pub fn change_bits(&mut self, ch: AxiGpioChannel, set_bits: u32, clear_bits: u32)
        requires
            old(self).wf(),
        ensures
            final(self).wf(),
            final(self)@ == (match ch {
                AxiGpioChannel::Ch1 => GpioModel {
                    ch1_data: (old(self).data(ch) & !clear_bits) | set_bits,
                    ..old(self)@
                },
                AxiGpioChannel::Ch2 => GpioModel {
                    ch2_data: (old(self).data(ch) & !clear_bits) | set_bits,
                    ..old(self)@
                },
            }),
    {
        let value = self.read(ch);
        let updated = masked_update(value, set_bits, clear_bits);
        self.write(ch, updated);
    }

    /// Configures the bits in `bits` as inputs: sets them in the
    /// tri-state register of `ch`.
    pub fn set_input(&mut self, ch: AxiGpioChannel, bits: u32)
        requires
            old(self).wf(),
        ensures
            final(self).wf(),
            final(self)@ == (match ch {
                AxiGpioChannel::Ch1 => GpioModel { ch1_tri: old(self).tri(ch) | bits, ..old(self)@ },
                AxiGpioChannel::Ch2 => GpioModel { ch2_tri: old(self).tri(ch) | bits, ..old(self)@ },
            }),
    {
        let tri = self.tristate(ch);
        self.set_tristate(ch, tri | bits);
    }

    /// Configures the bits in `bits` as outputs: clears them in the
    /// tri-state register of `ch`.
    pub fn set_output(&mut self, ch: AxiGpioChannel, bits: u32)
        requires
            old(self).wf(),
        ensures
            final(self).wf(),
            final(self)@ == (match ch {
                AxiGpioChannel::Ch1 => GpioModel { ch1_tri: old(self).tri(ch) & !bits, ..old(self)@ },
                AxiGpioChannel::Ch2 => GpioModel { ch2_tri: old(self).tri(ch) & !bits, ..old(self)@ },
            }),
    {
        let tri = self.tristate(ch);
        self.set_tristate(ch, tri & !bits);
    }
}

} // verus!
