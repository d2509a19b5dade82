//! The values of the termios and modem-line constants of the `libc` crate that the
//! port configuration uses, for Linux with glibc on x86-64 (libc's
//! `unix/linux_like` modules with `linux/gnu/b64/x86_64` and `linux/arch/generic`).
//!
//! Each value is stated once as an open spec function, which the contracts of the
//! library speak of, and read once from `libc` by a trusted item whose contract says
//! that libc defines it so.

use vstd::prelude::*;

verus! {

/// `IGNBRK`: ignore a break condition on input.
pub open spec fn ignbrk() -> u32 {
    0x1
}

/// Reads `libc::IGNBRK`, which libc defines as `0x1` for this target.
#[verifier::external_body]
pub(crate) fn libc_ignbrk() -> (value: u32)
    ensures
        value == ignbrk(),
{
    libc::IGNBRK
}

/// `BRKINT`: signal an interrupt on a break.
pub open spec fn brkint() -> u32 {
    0x2
}

/// Reads `libc::BRKINT`, which libc defines as `0x2` for this target.
#[verifier::external_body]
pub(crate) fn libc_brkint() -> (value: u32)
    ensures
        value == brkint(),
{
    libc::BRKINT
}

/// `IGNPAR`: ignore framing and parity errors.
pub open spec fn ignpar() -> u32 {
    0x4
}

/// Reads `libc::IGNPAR`, which libc defines as `0x4` for this target.
#[verifier::external_body]
pub(crate) fn libc_ignpar() -> (value: u32)
    ensures
        value == ignpar(),
{
    libc::IGNPAR
}

/// `PARMRK`: mark framing and parity errors in the input.
pub open spec fn parmrk() -> u32 {
    0x8
}

/// Reads `libc::PARMRK`, which libc defines as `0x8` for this target.
#[verifier::external_body]
pub(crate) fn libc_parmrk() -> (value: u32)
    ensures
        value == parmrk(),
{
    libc::PARMRK
}

/// `INPCK`: enable input parity checking.
pub open spec fn inpck() -> u32 {
    0x10
}

/// Reads `libc::INPCK`, which libc defines as `0x10` for this target.
#[verifier::external_body]
pub(crate) fn libc_inpck() -> (value: u32)
    ensures
        value == inpck(),
{
    libc::INPCK
}

/// `ISTRIP`: strip the eighth bit of input.
pub open spec fn istrip() -> u32 {
    0x20
}

/// Reads `libc::ISTRIP`, which libc defines as `0x20` for this target.
#[verifier::external_body]
pub(crate) fn libc_istrip() -> (value: u32)
    ensures
        value == istrip(),
{
    libc::ISTRIP
}

/// `INLCR`: turn NL into CR on input.
pub open spec fn inlcr() -> u32 {
    0x40
}

/// Reads `libc::INLCR`, which libc defines as `0x40` for this target.
#[verifier::external_body]
pub(crate) fn libc_inlcr() -> (value: u32)
    ensures
        value == inlcr(),
{
    libc::INLCR
}

/// `IGNCR`: ignore CR on input.
pub open spec fn igncr() -> u32 {
    0x80
}

/// Reads `libc::IGNCR`, which libc defines as `0x80` for this target.
#[verifier::external_body]
pub(crate) fn libc_igncr() -> (value: u32)
    ensures
        value == igncr(),
{
    libc::IGNCR
}

/// `ICRNL`: turn CR into NL on input.
pub open spec fn icrnl() -> u32 {
    0x100
}

/// Reads `libc::ICRNL`, which libc defines as `0x100` for this target.
#[verifier::external_body]
pub(crate) fn libc_icrnl() -> (value: u32)
    ensures
        value == icrnl(),
{
    libc::ICRNL
}

/// `IXON`: XON/XOFF flow control on output.
pub open spec fn ixon() -> u32 {
    0x400
}

/// Reads `libc::IXON`, which libc defines as `0x400` for this target.
#[verifier::external_body]
pub(crate) fn libc_ixon() -> (value: u32)
    ensures
        value == ixon(),
{
    libc::IXON
}

/// `IXANY`: restart output on any character.
pub open spec fn ixany() -> u32 {
    0x800
}

/// Reads `libc::IXANY`, which libc defines as `0x800` for this target.
#[verifier::external_body]
pub(crate) fn libc_ixany() -> (value: u32)
    ensures
        value == ixany(),
{
    libc::IXANY
}

/// `IXOFF`: XON/XOFF flow control on input.
pub open spec fn ixoff() -> u32 {
    0x1000
}

/// Reads `libc::IXOFF`, which libc defines as `0x1000` for this target.
#[verifier::external_body]
pub(crate) fn libc_ixoff() -> (value: u32)
    ensures
        value == ixoff(),
{
    libc::IXOFF
}

/// `OPOST`: implementation-defined output processing.
pub open spec fn opost() -> u32 {
    0x1
}

/// Reads `libc::OPOST`, which libc defines as `0x1` for this target.
#[verifier::external_body]
pub(crate) fn libc_opost() -> (value: u32)
    ensures
        value == opost(),
{
    libc::OPOST
}

/// `ISIG`: generate signals for INTR, QUIT, SUSP and DSUSP.
pub open spec fn isig() -> u32 {
    0x1
}

/// Reads `libc::ISIG`, which libc defines as `0x1` for this target.
#[verifier::external_body]
pub(crate) fn libc_isig() -> (value: u32)
    ensures
        value == isig(),
{
    libc::ISIG
}

/// `ICANON`: canonical (line by line) input.
pub open spec fn icanon() -> u32 {
    0x2
}

/// Reads `libc::ICANON`, which libc defines as `0x2` for this target.
#[verifier::external_body]
pub(crate) fn libc_icanon() -> (value: u32)
    ensures
        value == icanon(),
{
    libc::ICANON
}

/// `ECHO`: echo input characters.
pub open spec fn echo() -> u32 {
    0x8
}

/// Reads `libc::ECHO`, which libc defines as `0x8` for this target.
#[verifier::external_body]
pub(crate) fn libc_echo() -> (value: u32)
    ensures
        value == echo(),
{
    libc::ECHO
}

/// `ECHONL`: echo NL in canonical mode.
pub open spec fn echonl() -> u32 {
    0x40
}

/// Reads `libc::ECHONL`, which libc defines as `0x40` for this target.
#[verifier::external_body]
pub(crate) fn libc_echonl() -> (value: u32)
    ensures
        value == echonl(),
{
    libc::ECHONL
}

/// `IEXTEN`: implementation-defined input processing.
pub open spec fn iexten() -> u32 {
    0x8000
}

/// Reads `libc::IEXTEN`, which libc defines as `0x8000` for this target.
#[verifier::external_body]
pub(crate) fn libc_iexten() -> (value: u32)
    ensures
        value == iexten(),
{
    libc::IEXTEN
}

/// `CSIZE`: the character size mask.
pub open spec fn csize() -> u32 {
    0x30
}

/// Reads `libc::CSIZE`, which libc defines as `0x30` for this target.
#[verifier::external_body]
pub(crate) fn libc_csize() -> (value: u32)
    ensures
        value == csize(),
{
    libc::CSIZE
}

/// `CS5`: five bits per character.
pub open spec fn cs5() -> u32 {
    0x0
}

/// Reads `libc::CS5`, which libc defines as `0x0` for this target.
#[verifier::external_body]
pub(crate) fn libc_cs5() -> (value: u32)
    ensures
        value == cs5(),
{
    libc::CS5
}

/// `CS6`: six bits per character.
pub open spec fn cs6() -> u32 {
    0x10
}

/// Reads `libc::CS6`, which libc defines as `0x10` for this target.
#[verifier::external_body]
pub(crate) fn libc_cs6() -> (value: u32)
    ensures
        value == cs6(),
{
    libc::CS6
}

/// `CS7`: seven bits per character.
pub open spec fn cs7() -> u32 {
    0x20
}

/// Reads `libc::CS7`, which libc defines as `0x20` for this target.
#[verifier::external_body]
pub(crate) fn libc_cs7() -> (value: u32)
    ensures
        value == cs7(),
{
    libc::CS7
}

/// `CS8`: eight bits per character.
pub open spec fn cs8() -> u32 {
    0x30
}

/// Reads `libc::CS8`, which libc defines as `0x30` for this target.
#[verifier::external_body]
pub(crate) fn libc_cs8() -> (value: u32)
    ensures
        value == cs8(),
{
    libc::CS8
}

/// `CSTOPB`: two stop bits rather than one.
pub open spec fn cstopb() -> u32 {
    0x40
}

/// Reads `libc::CSTOPB`, which libc defines as `0x40` for this target.
#[verifier::external_body]
pub(crate) fn libc_cstopb() -> (value: u32)
    ensures
        value == cstopb(),
{
    libc::CSTOPB
}

/// `CREAD`: enable the receiver.
pub open spec fn cread() -> u32 {
    0x80
}

/// Reads `libc::CREAD`, which libc defines as `0x80` for this target.
#[verifier::external_body]
pub(crate) fn libc_cread() -> (value: u32)
    ensures
        value == cread(),
{
    libc::CREAD
}

/// `PARENB`: parity generation on output and checking on input.
pub open spec fn parenb() -> u32 {
    0x100
}

/// Reads `libc::PARENB`, which libc defines as `0x100` for this target.
#[verifier::external_body]
pub(crate) fn libc_parenb() -> (value: u32)
    ensures
        value == parenb(),
{
    libc::PARENB
}

/// `PARODD`: odd rather than even parity.
pub open spec fn parodd() -> u32 {
    0x200
}

/// Reads `libc::PARODD`, which libc defines as `0x200` for this target.
#[verifier::external_body]
pub(crate) fn libc_parodd() -> (value: u32)
    ensures
        value == parodd(),
{
    libc::PARODD
}

/// `CLOCAL`: ignore the modem control lines.
pub open spec fn clocal() -> u32 {
    0x800
}

/// Reads `libc::CLOCAL`, which libc defines as `0x800` for this target.
#[verifier::external_body]
pub(crate) fn libc_clocal() -> (value: u32)
    ensures
        value == clocal(),
{
    libc::CLOCAL
}

/// `CRTSCTS`: RTS/CTS (hardware) flow control.
pub open spec fn crtscts() -> u32 {
    0x80000000
}

/// Reads `libc::CRTSCTS`, which libc defines as `0x80000000` for this target.
#[verifier::external_body]
pub(crate) fn libc_crtscts() -> (value: u32)
    ensures
        value == crtscts(),
{
    libc::CRTSCTS
}

/// `VTIME`: index of the read timeout in `c_cc`.
pub open spec fn vtime() -> usize {
    5
}

/// Reads `libc::VTIME`, which libc defines as `5` for this target.
#[verifier::external_body]
pub(crate) fn libc_vtime() -> (value: usize)
    ensures
        value == vtime(),
{
    libc::VTIME
}

/// `VMIN`: index of the minimum read count in `c_cc`.
pub open spec fn vmin() -> usize {
    6
}

/// Reads `libc::VMIN`, which libc defines as `6` for this target.
#[verifier::external_body]
pub(crate) fn libc_vmin() -> (value: usize)
    ensures
        value == vmin(),
{
    libc::VMIN
}

/// `VSTART`: index of the START (XON) character in `c_cc`.
pub open spec fn vstart() -> usize {
    8
}

/// Reads `libc::VSTART`, which libc defines as `8` for this target.
#[verifier::external_body]
pub(crate) fn libc_vstart() -> (value: usize)
    ensures
        value == vstart(),
{
    libc::VSTART
}

/// `VSTOP`: index of the STOP (XOFF) character in `c_cc`.
pub open spec fn vstop() -> usize {
    9
}

/// Reads `libc::VSTOP`, which libc defines as `9` for this target.
#[verifier::external_body]
pub(crate) fn libc_vstop() -> (value: usize)
    ensures
        value == vstop(),
{
    libc::VSTOP
}

/// `TIOCM_DTR`: the DTR modem line.
pub open spec fn tiocm_dtr() -> i32 {
    0x2
}

/// Reads `libc::TIOCM_DTR`, which libc defines as `0x2` for this target.
#[verifier::external_body]
pub(crate) fn libc_tiocm_dtr() -> (value: i32)
    ensures
        value == tiocm_dtr(),
{
    libc::TIOCM_DTR
}

/// `TIOCM_RTS`: the RTS modem line.
pub open spec fn tiocm_rts() -> i32 {
    0x4
}

/// Reads `libc::TIOCM_RTS`, which libc defines as `0x4` for this target.
#[verifier::external_body]
pub(crate) fn libc_tiocm_rts() -> (value: i32)
    ensures
        value == tiocm_rts(),
{
    libc::TIOCM_RTS
}

/// `TIOCM_CTS`: the CTS modem line.
pub open spec fn tiocm_cts() -> i32 {
    0x20
}

/// Reads `libc::TIOCM_CTS`, which libc defines as `0x20` for this target.
#[verifier::external_body]
pub(crate) fn libc_tiocm_cts() -> (value: i32)
    ensures
        value == tiocm_cts(),
{
    libc::TIOCM_CTS
}

/// `TIOCM_CD`: the carrier detect modem line.
pub open spec fn tiocm_cd() -> i32 {
    0x40
}

/// Reads `libc::TIOCM_CD`, which libc defines as `0x40` for this target.
#[verifier::external_body]
pub(crate) fn libc_tiocm_cd() -> (value: i32)
    ensures
        value == tiocm_cd(),
{
    libc::TIOCM_CD
}

/// `TIOCM_RI`: the ring indicator modem line.
pub open spec fn tiocm_ri() -> i32 {
    0x80
}

/// Reads `libc::TIOCM_RI`, which libc defines as `0x80` for this target.
#[verifier::external_body]
pub(crate) fn libc_tiocm_ri() -> (value: i32)
    ensures
        value == tiocm_ri(),
{
    libc::TIOCM_RI
}

/// `TIOCM_DSR`: the DSR modem line.
pub open spec fn tiocm_dsr() -> i32 {
    0x100
}

/// Reads `libc::TIOCM_DSR`, which libc defines as `0x100` for this target.
#[verifier::external_body]
pub(crate) fn libc_tiocm_dsr() -> (value: i32)
    ensures
        value == tiocm_dsr(),
{
    libc::TIOCM_DSR
}

/// `TIOCMBIS`: the ioctl request that sets modem lines.
pub open spec fn tiocmbis() -> u64 {
    0x5416
}

/// Reads `libc::TIOCMBIS`, which libc defines as `0x5416` for this target.
#[verifier::external_body]
pub(crate) fn libc_tiocmbis() -> (value: u64)
    ensures
        value == tiocmbis(),
{
    libc::TIOCMBIS
}

/// `TIOCMBIC`: the ioctl request that clears modem lines.
pub open spec fn tiocmbic() -> u64 {
    0x5417
}

/// Reads `libc::TIOCMBIC`, which libc defines as `0x5417` for this target.
#[verifier::external_body]
pub(crate) fn libc_tiocmbic() -> (value: u64)
    ensures
        value == tiocmbic(),
{
    libc::TIOCMBIC
}

/// Reads `libc::B50`, the `speed_t` for 50 baud, which libc defines as `0o000001`
/// for this target.
#[verifier::external_body]
pub(crate) fn libc_b50() -> (speed: u32)
    ensures
        speed == 0o000001,
{
    libc::B50
}

/// Reads `libc::B75`, the `speed_t` for 75 baud, which libc defines as `0o000002`
/// for this target.
#[verifier::external_body]
pub(crate) fn libc_b75() -> (speed: u32)
    ensures
        speed == 0o000002,
{
    libc::B75
}

/// Reads `libc::B110`, the `speed_t` for 110 baud, which libc defines as `0o000003`
/// for this target.
#[verifier::external_body]
pub(crate) fn libc_b110() -> (speed: u32)
    ensures
        speed == 0o000003,
{
    libc::B110
}

/// Reads `libc::B134`, the `speed_t` for 134 baud, which libc defines as `0o000004`
/// for this target.
#[verifier::external_body]
pub(crate) fn libc_b134() -> (speed: u32)
    ensures
        speed == 0o000004,
{
    libc::B134
}

/// Reads `libc::B150`, the `speed_t` for 150 baud, which libc defines as `0o000005`
/// for this target.
#[verifier::external_body]
pub(crate) fn libc_b150() -> (speed: u32)
    ensures
        speed == 0o000005,
{
    libc::B150
}

/// Reads `libc::B200`, the `speed_t` for 200 baud, which libc defines as `0o000006`
/// for this target.
#[verifier::external_body]
pub(crate) fn libc_b200() -> (speed: u32)
    ensures
        speed == 0o000006,
{
    libc::B200
}

/// Reads `libc::B300`, the `speed_t` for 300 baud, which libc defines as `0o000007`
/// for this target.
#[verifier::external_body]
pub(crate) fn libc_b300() -> (speed: u32)
    ensures
        speed == 0o000007,
{
    libc::B300
}

/// Reads `libc::B600`, the `speed_t` for 600 baud, which libc defines as `0o000010`
/// for this target.
#[verifier::external_body]
pub(crate) fn libc_b600() -> (speed: u32)
    ensures
        speed == 0o000010,
{
    libc::B600
}

/// Reads `libc::B1200`, the `speed_t` for 1200 baud, which libc defines as `0o000011`
/// for this target.
#[verifier::external_body]
pub(crate) fn libc_b1200() -> (speed: u32)
    ensures
        speed == 0o000011,
{
    libc::B1200
}

/// Reads `libc::B1800`, the `speed_t` for 1800 baud, which libc defines as `0o000012`
/// for this target.
#[verifier::external_body]
pub(crate) fn libc_b1800() -> (speed: u32)
    ensures
        speed == 0o000012,
{
    libc::B1800
}

/// Reads `libc::B2400`, the `speed_t` for 2400 baud, which libc defines as `0o000013`
/// for this target.
#[verifier::external_body]
pub(crate) fn libc_b2400() -> (speed: u32)
    ensures
        speed == 0o000013,
{
    libc::B2400
}

/// Reads `libc::B4800`, the `speed_t` for 4800 baud, which libc defines as `0o000014`
/// for this target.
#[verifier::external_body]
pub(crate) fn libc_b4800() -> (speed: u32)
    ensures
        speed == 0o000014,
{
    libc::B4800
}

/// Reads `libc::B9600`, the `speed_t` for 9600 baud, which libc defines as `0o000015`
/// for this target.
#[verifier::external_body]
pub(crate) fn libc_b9600() -> (speed: u32)
    ensures
        speed == 0o000015,
{
    libc::B9600
}

/// Reads `libc::B19200`, the `speed_t` for 19200 baud, which libc defines as `0o000016`
/// for this target.
#[verifier::external_body]
pub(crate) fn libc_b19200() -> (speed: u32)
    ensures
        speed == 0o000016,
{
    libc::B19200
}

/// Reads `libc::B38400`, the `speed_t` for 38400 baud, which libc defines as `0o000017`
/// for this target.
#[verifier::external_body]
pub(crate) fn libc_b38400() -> (speed: u32)
    ensures
        speed == 0o000017,
{
    libc::B38400
}

/// Reads `libc::B57600`, the `speed_t` for 57600 baud, which libc defines as `0o010001`
/// for this target.
#[verifier::external_body]
pub(crate) fn libc_b57600() -> (speed: u32)
    ensures
        speed == 0o010001,
{
    libc::B57600
}

/// Reads `libc::B115200`, the `speed_t` for 115200 baud, which libc defines as `0o010002`
/// for this target.
#[verifier::external_body]
pub(crate) fn libc_b115200() -> (speed: u32)
    ensures
        speed == 0o010002,
{
    libc::B115200
}

/// Reads `libc::B230400`, the `speed_t` for 230400 baud, which libc defines as `0o010003`
/// for this target.
#[verifier::external_body]
pub(crate) fn libc_b230400() -> (speed: u32)
    ensures
        speed == 0o010003,
{
    libc::B230400
}

/// Reads `libc::B460800`, the `speed_t` for 460800 baud, which libc defines as `0o010004`
/// for this target.
#[verifier::external_body]
pub(crate) fn libc_b460800() -> (speed: u32)
    ensures
        speed == 0o010004,
{
    libc::B460800
}

/// Reads `libc::B500000`, the `speed_t` for 500000 baud, which libc defines as `0o010005`
/// for this target.
#[verifier::external_body]
pub(crate) fn libc_b500000() -> (speed: u32)
    ensures
        speed == 0o010005,
{
    libc::B500000
}

/// Reads `libc::B576000`, the `speed_t` for 576000 baud, which libc defines as `0o010006`
/// for this target.
#[verifier::external_body]
pub(crate) fn libc_b576000() -> (speed: u32)
    ensures
        speed == 0o010006,
{
    libc::B576000
}

/// Reads `libc::B921600`, the `speed_t` for 921600 baud, which libc defines as `0o010007`
/// for this target.
#[verifier::external_body]
pub(crate) fn libc_b921600() -> (speed: u32)
    ensures
        speed == 0o010007,
{
    libc::B921600
}

/// Reads `libc::B1000000`, the `speed_t` for 1000000 baud, which libc defines as `0o010010`
/// for this target.
#[verifier::external_body]
pub(crate) fn libc_b1000000() -> (speed: u32)
    ensures
        speed == 0o010010,
{
    libc::B1000000
}

/// Reads `libc::B1152000`, the `speed_t` for 1152000 baud, which libc defines as `0o010011`
/// for this target.
#[verifier::external_body]
pub(crate) fn libc_b1152000() -> (speed: u32)
    ensures
        speed == 0o010011,
{
    libc::B1152000
}

/// Reads `libc::B1500000`, the `speed_t` for 1500000 baud, which libc defines as `0o010012`
/// for this target.
#[verifier::external_body]
pub(crate) fn libc_b1500000() -> (speed: u32)
    ensures
        speed == 0o010012,
{
    libc::B1500000
}

/// Reads `libc::B2000000`, the `speed_t` for 2000000 baud, which libc defines as `0o010013`
/// for this target.
#[verifier::external_body]
pub(crate) fn libc_b2000000() -> (speed: u32)
    ensures
        speed == 0o010013,
{
    libc::B2000000
}

/// Reads `libc::B2500000`, the `speed_t` for 2500000 baud, which libc defines as `0o010014`
/// for this target.
#[verifier::external_body]
pub(crate) fn libc_b2500000() -> (speed: u32)
    ensures
        speed == 0o010014,
{
    libc::B2500000
}

/// Reads `libc::B3000000`, the `speed_t` for 3000000 baud, which libc defines as `0o010015`
/// for this target.
#[verifier::external_body]
pub(crate) fn libc_b3000000() -> (speed: u32)
    ensures
        speed == 0o010015,
{
    libc::B3000000
}

/// Reads `libc::B3500000`, the `speed_t` for 3500000 baud, which libc defines as `0o010016`
/// for this target.
#[verifier::external_body]
pub(crate) fn libc_b3500000() -> (speed: u32)
    ensures
        speed == 0o010016,
{
    libc::B3500000
}

/// Reads `libc::B4000000`, the `speed_t` for 4000000 baud, which libc defines as `0o010017`
/// for this target.
#[verifier::external_body]
pub(crate) fn libc_b4000000() -> (speed: u32)
    ensures
        speed == 0o010017,
{
    libc::B4000000
}

} // verus!
