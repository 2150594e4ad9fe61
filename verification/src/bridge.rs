//! Duplex bridge pumps: the decision logic of the two polling loops that
//! move bytes between the UART FIFOs and an external byte stream.  Each
//! pump holds the UART only for the duration of a single poll, treats
//! "not ready" as a cue to idle, and retries until the traffic it was
//! given is fully moved.

use vstd::prelude::*;
use crate::uart16550::{AxiUart16550, Initialized, UartModel};

verus! {

/// Uplink pump (peripheral to external stream): repeatedly polls the
/// UART for received bytes with a scratch buffer of `chunk_len` bytes,
/// appends whatever arrived to `out`, and idles through not-ready
/// windows, until the modeled line has no more traffic.  Every received
/// byte is delivered exactly once, in arrival order.
pub fn run_uplink(uart: &mut AxiUart16550<Initialized>, out: &mut Vec<u8>, chunk_len: usize)
    requires
        chunk_len > 0,
    ensures
        final(out)@ == old(out)@ + old(uart).regs@.rx_all(),
        final(uart).regs.rx_exhausted(),
        final(uart).regs@.tx_taken == old(uart).regs@.tx_taken,
        final(uart).regs@.tx_burst == old(uart).regs@.tx_burst,
        final(uart).regs@.fcr == old(uart).regs@.fcr,
        final(uart).regs@.lcr == old(uart).regs@.lcr,
        final(uart).regs@.mcr == old(uart).regs@.mcr,
        final(uart).regs@.scr == old(uart).regs@.scr,
        final(uart).regs@.dll == old(uart).regs@.dll,
        final(uart).regs@.dlm == old(uart).regs@.dlm,
{
    let ghost orig = uart.regs@;
    let ghost out0 = out@;
    loop
        invariant
            chunk_len > 0,
            out@ + uart.regs@.rx_all() == out0 + orig.rx_all(),
            uart.regs@.tx_taken == orig.tx_taken,
            uart.regs@.tx_burst == orig.tx_burst,
            uart.regs@.fcr == orig.fcr,
            uart.regs@.lcr == orig.lcr,
            uart.regs@.mcr == orig.mcr,
            uart.regs@.scr == orig.scr,
            uart.regs@.dll == orig.dll,
            uart.regs@.dlm == orig.dlm,
        ensures
            uart.regs.rx_exhausted(),
            out@ + uart.regs@.rx_all() == out0 + orig.rx_all(),
            uart.regs@.tx_taken == orig.tx_taken,
            uart.regs@.tx_burst == orig.tx_burst,
            uart.regs@.fcr == orig.fcr,
            uart.regs@.lcr == orig.lcr,
            uart.regs@.mcr == orig.mcr,
            uart.regs@.scr == orig.scr,
            uart.regs@.dll == orig.dll,
            uart.regs@.dlm == orig.dlm,
        decreases uart.regs@.rx_all().len(), uart.regs@.rx_pending.len(),
    {
        if !uart.regs.has_rx_traffic() {
            break;
        }
        let ghost before = uart.regs@;
        match uart.poll_read(chunk_len) {
            Ok(mut bytes) => {
                let ghost got = bytes@;
                let ghost out_before = out@;
                out.append(&mut bytes);
                proof {
                    assert(got + uart.regs@.rx_all() =~= before.rx_all());
                    assert(out@ + uart.regs@.rx_all() =~= out_before + before.rx_all());
                }
            },
            Err(_) => {
                // nothing arrived: idle until the line makes progress
                uart.regs.idle_tick();
            },
        }
    }
    proof {
        assert(uart.regs@.rx_all().len() == 0);
        assert(out@ =~= out0 + orig.rx_all());
    }
}

/// Downlink pump (external stream to peripheral): pushes one chunk read
/// from the external stream into the UART, retrying the unwritten
/// remainder after an idle interval whenever the transmitter is not
/// ready or accepted only part of it, until the whole chunk is accepted.
/// The core receives exactly the chunk, in order, with no byte dropped
/// or duplicated, in bursts bounded by the transmit FIFO capacity.
pub fn run_downlink(uart: &mut AxiUart16550<Initialized>, chunk: &Vec<u8>)
    requires
        old(uart).regs@.wf(),
        old(uart).regs@.tx_burst > 0,
    ensures
        final(uart).regs@.tx_taken == old(uart).regs@.tx_taken + chunk@,
        final(uart).regs@.wf(),
        final(uart).regs@.tx_burst == old(uart).regs@.tx_burst,
        final(uart).regs@.rx_all() == old(uart).regs@.rx_all(),
        final(uart).regs@.fcr == old(uart).regs@.fcr,
        final(uart).regs@.lcr == old(uart).regs@.lcr,
        final(uart).regs@.mcr == old(uart).regs@.mcr,
        final(uart).regs@.scr == old(uart).regs@.scr,
        final(uart).regs@.dll == old(uart).regs@.dll,
        final(uart).regs@.dlm == old(uart).regs@.dlm,
{
    let ghost orig = uart.regs@;
    let mut pos: usize = 0;
    proof {
        assert(orig.tx_taken + chunk@.take(0) =~= orig.tx_taken);
    }
    while pos < chunk.len()
        invariant
            pos <= chunk@.len(),
            uart.regs@.wf(),
            uart.regs@.tx_burst == orig.tx_burst,
            orig.tx_burst > 0,
            uart.regs@.tx_taken == orig.tx_taken + chunk@.take(pos as int),
            uart.regs@.rx_all() == orig.rx_all(),
            uart.regs@.fcr == orig.fcr,
            uart.regs@.lcr == orig.lcr,
            uart.regs@.mcr == orig.mcr,
            uart.regs@.scr == orig.scr,
            uart.regs@.dll == orig.dll,
            uart.regs@.dlm == orig.dlm,
        decreases chunk@.len() - pos, (if uart.regs@.tx_room == 0 {
            1int
        } else {
            0int
        }),
    {
        let rest = tail_copy(chunk, pos);
        match uart.poll_write(&rest) {
            Ok(n) => {
                proof {
                    assert(n >= 1);
                    assert(rest@.take(n as int) =~= chunk@.skip(pos as int).take(n as int));
                    assert(chunk@.take(pos as int) + chunk@.skip(pos as int).take(n as int)
                        =~= chunk@.take(pos as int + n as int));
                    assert(orig.tx_taken + chunk@.take(pos as int) + rest@.take(n as int)
                        =~= orig.tx_taken + chunk@.take(pos as int + n as int));
                }
                pos = pos + n;
            },
            Err(_) => {
                // transmitter full: idle until the FIFO drains
                uart.regs.idle_tick();
            },
        }
    }
    proof {
        assert(chunk@.take(chunk@.len() as int) =~= chunk@);
    }
}

/// Copy of the suffix of `v` that starts at `from`.
pub fn tail_copy(v: &Vec<u8>, from: usize) -> (r: Vec<u8>)
    requires
        from <= v@.len(),
    ensures
        r@ == v@.skip(from as int),
{
    let mut r: Vec<u8> = Vec::new();
    let mut i: usize = from;
    while i < v.len()
        invariant
            from <= i <= v@.len(),
            r@ == v@.subrange(from as int, i as int),
        decreases v@.len() - i,
    {
        let b = v[i];
        proof {
            assert(v@.subrange(from as int, i as int).push(v@[i as int]) =~= v@.subrange(
                from as int,
                i as int + 1,
            ));
        }
        r.push(b);
        i = i + 1;
    }
    proof {
        assert(v@.subrange(from as int, v@.len() as int) =~= v@.skip(from as int));
    }
    r
}

} // verus!
