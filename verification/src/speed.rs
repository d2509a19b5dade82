use crate::consts::{
    libc_b50, libc_b75, libc_b110, libc_b134, libc_b150, libc_b200, libc_b300, libc_b600, libc_b1200, libc_b1800, libc_b2400, libc_b4800, libc_b9600, libc_b19200, libc_b38400, libc_b57600, libc_b115200, libc_b230400, libc_b460800, libc_b500000, libc_b576000, libc_b921600, libc_b1000000, libc_b1152000, libc_b1500000, libc_b2000000, libc_b2500000, libc_b3000000, libc_b3500000, libc_b4000000,
};
use vstd::prelude::*;

verus! {

/// The `speed_t` code of a standard baud rate, as `cfsetspeed` takes it: the rates
/// that the termios(3) manual page lists for Linux outside SPARC. Any other rate has
/// no code.
pub open spec fn speed_code(baud_rate: u32) -> Option<u32> {
    match baud_rate {
        50 => Some(0o000001u32),
        75 => Some(0o000002u32),
        110 => Some(0o000003u32),
        134 => Some(0o000004u32),
        150 => Some(0o000005u32),
        200 => Some(0o000006u32),
        300 => Some(0o000007u32),
        600 => Some(0o000010u32),
        1200 => Some(0o000011u32),
        1800 => Some(0o000012u32),
        2400 => Some(0o000013u32),
        4800 => Some(0o000014u32),
        9600 => Some(0o000015u32),
        19200 => Some(0o000016u32),
        38400 => Some(0o000017u32),
        57600 => Some(0o010001u32),
        115200 => Some(0o010002u32),
        230400 => Some(0o010003u32),
        460800 => Some(0o010004u32),
        500000 => Some(0o010005u32),
        576000 => Some(0o010006u32),
        921600 => Some(0o010007u32),
        1000000 => Some(0o010010u32),
        1152000 => Some(0o010011u32),
        1500000 => Some(0o010012u32),
        2000000 => Some(0o010013u32),
        2500000 => Some(0o010014u32),
        3000000 => Some(0o010015u32),
        3500000 => Some(0o010016u32),
        4000000 => Some(0o010017u32),
        _ => None,
    }
}

/// The baud rate whose `speed_t` code is `speed`, if any.
pub open spec fn baud_rate_of_code(speed: u32) -> Option<u32> {
    match speed {
        0o000001 => Some(50u32),
        0o000002 => Some(75u32),
        0o000003 => Some(110u32),
        0o000004 => Some(134u32),
        0o000005 => Some(150u32),
        0o000006 => Some(200u32),
        0o000007 => Some(300u32),
        0o000010 => Some(600u32),
        0o000011 => Some(1200u32),
        0o000012 => Some(1800u32),
        0o000013 => Some(2400u32),
        0o000014 => Some(4800u32),
        0o000015 => Some(9600u32),
        0o000016 => Some(19200u32),
        0o000017 => Some(38400u32),
        0o010001 => Some(57600u32),
        0o010002 => Some(115200u32),
        0o010003 => Some(230400u32),
        0o010004 => Some(460800u32),
        0o010005 => Some(500000u32),
        0o010006 => Some(576000u32),
        0o010007 => Some(921600u32),
        0o010010 => Some(1000000u32),
        0o010011 => Some(1152000u32),
        0o010012 => Some(1500000u32),
        0o010013 => Some(2000000u32),
        0o010014 => Some(2500000u32),
        0o010015 => Some(3000000u32),
        0o010016 => Some(3500000u32),
        0o010017 => Some(4000000u32),
        _ => None,
    }
}

/// The `speed_t` code of `baud_rate` if it is a standard rate, `None` otherwise.
pub fn standard_baud_rate(baud_rate: u32) -> (speed: Option<u32>)
    ensures
        speed == speed_code(baud_rate),
{
    match baud_rate {
        50 => Some(libc_b50()),
        75 => Some(libc_b75()),
        110 => Some(libc_b110()),
        134 => Some(libc_b134()),
        150 => Some(libc_b150()),
        200 => Some(libc_b200()),
        300 => Some(libc_b300()),
        600 => Some(libc_b600()),
        1200 => Some(libc_b1200()),
        1800 => Some(libc_b1800()),
        2400 => Some(libc_b2400()),
        4800 => Some(libc_b4800()),
        9600 => Some(libc_b9600()),
        19200 => Some(libc_b19200()),
        38400 => Some(libc_b38400()),
        57600 => Some(libc_b57600()),
        115200 => Some(libc_b115200()),
        230400 => Some(libc_b230400()),
        460800 => Some(libc_b460800()),
        500000 => Some(libc_b500000()),
        576000 => Some(libc_b576000()),
        921600 => Some(libc_b921600()),
        1000000 => Some(libc_b1000000()),
        1152000 => Some(libc_b1152000()),
        1500000 => Some(libc_b1500000()),
        2000000 => Some(libc_b2000000()),
        2500000 => Some(libc_b2500000()),
        3000000 => Some(libc_b3000000()),
        3500000 => Some(libc_b3500000()),
        4000000 => Some(libc_b4000000()),
        _ => None,
    }
}

/// Distinct standard baud rates have distinct speed codes, and the code of each gives
/// it back.
pub proof fn lemma_speed_code_round_trip(baud_rate: u32)
    ensures
        speed_code(baud_rate) matches Some(speed) ==> baud_rate_of_code(speed) == Some(baud_rate),
{
}

/// Two baud rates with the same speed code are the same rate.
pub proof fn lemma_speed_code_injective(a: u32, b: u32)
    requires
        speed_code(a) is Some,
        speed_code(a) == speed_code(b),
    ensures
        a == b,
{
    lemma_speed_code_round_trip(a);
    lemma_speed_code_round_trip(b);
}

} // verus!
