use crate::consts::{
    libc_tiocm_cd, libc_tiocm_cts, libc_tiocm_dsr, libc_tiocm_dtr, libc_tiocm_ri, libc_tiocm_rts,
    libc_tiocmbic, libc_tiocmbis, tiocm_cd, tiocm_cts, tiocm_dsr, tiocm_dtr, tiocm_ri, tiocm_rts,
    tiocmbic, tiocmbis,
};
use vstd::prelude::*;

verus! {

/// A modem control or status line of a serial port.
#[derive(Clone, Copy, Debug, PartialEq, Eq, Structural)]
pub enum ModemLine {
    /// Data Terminal Ready, an output.
    DataTerminalReady,
    /// Request To Send, an output.
    RequestToSend,
    /// Clear To Send, an input.
    ClearToSend,
    /// Data Set Ready, an input.
    DataSetReady,
    /// Ring Indicator, an input.
    RingIndicator,
    /// Carrier Detect, an input.
    CarrierDetect,
}

/// The bit of a modem line in the status word of `TIOCMGET`, `TIOCMBIS` and `TIOCMBIC`.
pub open spec fn modem_line_mask(line: ModemLine) -> i32 {
    match line {
        ModemLine::DataTerminalReady => tiocm_dtr(),
        ModemLine::RequestToSend => tiocm_rts(),
        ModemLine::ClearToSend => tiocm_cts(),
        ModemLine::DataSetReady => tiocm_dsr(),
        ModemLine::RingIndicator => tiocm_ri(),
        ModemLine::CarrierDetect => tiocm_cd(),
    }
}

/// The bit of `line` in a modem status word.
pub fn modem_line_bit(line: ModemLine) -> (bit: i32)
    ensures
        bit == modem_line_mask(line),
{
    match line {
        ModemLine::DataTerminalReady => libc_tiocm_dtr(),
        ModemLine::RequestToSend => libc_tiocm_rts(),
        ModemLine::ClearToSend => libc_tiocm_cts(),
        ModemLine::DataSetReady => libc_tiocm_dsr(),
        ModemLine::RingIndicator => libc_tiocm_ri(),
        ModemLine::CarrierDetect => libc_tiocm_cd(),
    }
}

/// The ioctl request that drives a modem line: `TIOCMBIS` to assert it, `TIOCMBIC`
/// to deassert it.
pub fn modem_line_request(asserted: bool) -> (request: u64)
    ensures
        request == (if asserted {
            tiocmbis()
        } else {
            tiocmbic()
        }),
{
    if asserted {
        libc_tiocmbis()
    } else {
        libc_tiocmbic()
    }
}

/// Whether the modem status word `status` (from `TIOCMGET`) shows `line` asserted.
pub fn modem_line_is_asserted(status: i32, line: ModemLine) -> (asserted: bool)
    ensures
        asserted == (status & modem_line_mask(line) != 0),
{
    status & modem_line_bit(line) != 0
}

/// The lines are distinct bits of the status word: a status word with exactly the bit
/// of one line shows that line asserted and every other line deasserted.
pub proof fn lemma_modem_lines_are_distinct_bits(line: ModemLine, other: ModemLine)
    ensures
        (modem_line_mask(line) & modem_line_mask(other) != 0) == (line == other),
{
    assert(0x2i32 & 0x4i32 == 0 && 0x2i32 & 0x20i32 == 0 && 0x2i32 & 0x100i32 == 0 && 0x2i32
        & 0x80i32 == 0 && 0x2i32 & 0x40i32 == 0 && 0x4i32 & 0x2i32 == 0 && 0x4i32 & 0x20i32 == 0
        && 0x4i32 & 0x100i32 == 0 && 0x4i32 & 0x80i32 == 0 && 0x4i32 & 0x40i32 == 0) by (bit_vector);
    assert(0x20i32 & 0x2i32 == 0 && 0x20i32 & 0x4i32 == 0 && 0x20i32 & 0x100i32 == 0 && 0x20i32
        & 0x80i32 == 0 && 0x20i32 & 0x40i32 == 0 && 0x100i32 & 0x2i32 == 0 && 0x100i32 & 0x4i32
        == 0 && 0x100i32 & 0x20i32 == 0 && 0x100i32 & 0x80i32 == 0 && 0x100i32 & 0x40i32 == 0)
        by (bit_vector);
    assert(0x80i32 & 0x2i32 == 0 && 0x80i32 & 0x4i32 == 0 && 0x80i32 & 0x20i32 == 0 && 0x80i32
        & 0x100i32 == 0 && 0x80i32 & 0x40i32 == 0 && 0x40i32 & 0x2i32 == 0 && 0x40i32 & 0x4i32
        == 0 && 0x40i32 & 0x20i32 == 0 && 0x40i32 & 0x100i32 == 0 && 0x40i32 & 0x80i32 == 0)
        by (bit_vector);
    assert(0x2i32 & 0x2i32 != 0 && 0x4i32 & 0x4i32 != 0 && 0x20i32 & 0x20i32 != 0 && 0x100i32
        & 0x100i32 != 0 && 0x80i32 & 0x80i32 != 0 && 0x40i32 & 0x40i32 != 0) by (bit_vector);
}

} // verus!
