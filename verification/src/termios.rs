use crate::consts::{
    brkint, clocal, cread, crtscts, cs5, cs6, cs7, cs8, csize, cstopb, echo, echonl, icanon, icrnl,
    iexten, igncr, ignbrk, ignpar, inlcr, inpck, isig, istrip, ixany, ixoff, ixon, libc_brkint,
    libc_clocal, libc_cread, libc_crtscts, libc_cs5, libc_cs6, libc_cs7, libc_cs8, libc_csize,
    libc_cstopb, libc_echo, libc_echonl, libc_icanon, libc_icrnl, libc_iexten, libc_igncr,
    libc_ignbrk, libc_ignpar, libc_inlcr, libc_inpck, libc_isig, libc_istrip, libc_ixany,
    libc_ixoff, libc_ixon, libc_opost, libc_parenb, libc_parmrk, libc_parodd, libc_vmin,
    libc_vstart, libc_vstop, libc_vtime, opost, parenb, parmrk, parodd, vmin, vstart, vstop, vtime,
};
use crate::settings::{DataBits, FlowControl, Parity, Settings, StopBits};
use crate::speed::{speed_code, standard_baud_rate};
use vstd::prelude::*;

verus! {

/// The terminal attributes of a tty, field for field as Linux's `struct termios`
/// holds them (glibc layout on x86-64: `NCCS` is 32).
#[derive(Clone, Copy, Debug, PartialEq, Eq)]
pub struct Termios {
    pub iflag: u32,
    pub oflag: u32,
    pub cflag: u32,
    pub lflag: u32,
    pub line: u8,
    pub cc: [u8; 32],
    pub ispeed: u32,
    pub ospeed: u32,
}

/// The value of a [`Termios`], with its control characters as a sequence.
#[verifier::ext_equal]
pub struct TermiosView {
    pub iflag: u32,
    pub oflag: u32,
    pub cflag: u32,
    pub lflag: u32,
    pub line: u8,
    pub cc: Seq<u8>,
    pub ispeed: u32,
    pub ospeed: u32,
}

impl View for Termios {
    type V = TermiosView;

    open spec fn view(&self) -> TermiosView {
        TermiosView {
            iflag: self.iflag,
            oflag: self.oflag,
            cflag: self.cflag,
            lflag: self.lflag,
            line: self.line,
            cc: self.cc@,
            ispeed: self.ispeed,
            ospeed: self.ospeed,
        }
    }
}

/// The input flags that raw mode clears.
pub open spec fn raw_iflag_mask() -> u32 {
    ignbrk() | brkint() | parmrk() | istrip() | inlcr() | igncr() | icrnl() | ixon()
}

/// The local flags that raw mode clears.
pub open spec fn raw_lflag_mask() -> u32 {
    echo() | echonl() | icanon() | isig() | iexten()
}

/// Raw mode, as `cfmakeraw` sets it (termios(3); glibc's `cfmakeraw` also sets
/// `c_cc[VMIN]` to 1 and `c_cc[VTIME]` to 0): no input or output processing, no echo,
/// no signals, eight bits per character and no parity.
pub open spec fn raw_mode(t: TermiosView) -> TermiosView {
    TermiosView {
        iflag: t.iflag & !raw_iflag_mask(),
        oflag: t.oflag & !opost(),
        cflag: (t.cflag & !(csize() | parenb())) | cs8(),
        lflag: t.lflag & !raw_lflag_mask(),
        cc: t.cc.update(vmin() as int, 1u8).update(vtime() as int, 0u8),
        ..t
    }
}

/// The input flags whose value the settings decide: those raw mode clears, the parity
/// checking flags and the software flow control flags.
pub open spec fn settings_iflag_mask() -> u32 {
    raw_iflag_mask() | inpck() | ignpar() | ixoff() | ixany()
}

/// The control flags whose value the settings decide, besides `CREAD` and `CLOCAL`,
/// which are always set.
pub open spec fn settings_cflag_mask() -> u32 {
    csize() | parenb() | parodd() | cstopb() | crtscts()
}

/// The character size bits of a number of data bits.
pub open spec fn char_size_bits(data_bits: DataBits) -> u32 {
    match data_bits {
        DataBits::Five => cs5(),
        DataBits::Six => cs6(),
        DataBits::Seven => cs7(),
        DataBits::Eight => cs8(),
    }
}

/// The control flags of a parity mode: `PARENB` for any parity, with `PARODD` for odd.
pub open spec fn parity_cflag_bits(parity: Parity) -> u32 {
    match parity {
        Parity::NoParity => 0,
        Parity::Odd => parenb() | parodd(),
        Parity::Even => parenb(),
    }
}

/// The input flags of a parity mode: `INPCK` (input parity checking) for any parity.
pub open spec fn parity_iflag_bits(parity: Parity) -> u32 {
    match parity {
        Parity::NoParity => 0,
        _ => inpck(),
    }
}

/// The control flags of a number of stop bits: `CSTOPB` for two.
pub open spec fn stop_bits_cflag_bits(stop_bits: StopBits) -> u32 {
    match stop_bits {
        StopBits::One => 0,
        StopBits::Two => cstopb(),
    }
}

/// The control flags of a flow control mode: `CRTSCTS` for hardware flow control.
pub open spec fn flow_cflag_bits(flow_control: FlowControl) -> u32 {
    match flow_control {
        FlowControl::Hardware => crtscts(),
        _ => 0,
    }
}

/// The input flags of a flow control mode: `IXON` and `IXOFF` for software flow control.
pub open spec fn flow_iflag_bits(flow_control: FlowControl) -> u32 {
    match flow_control {
        FlowControl::Software => ixon() | ixoff(),
        _ => 0,
    }
}

/// The control characters after configuration: at least one byte per read and no
/// read timeout, and with software flow control the conventional XON (0x11) and
/// XOFF (0x13) characters.
pub open spec fn configured_cc(cc: Seq<u8>, flow_control: FlowControl) -> Seq<u8> {
    let base = cc.update(vmin() as int, 1u8).update(vtime() as int, 0u8);
    match flow_control {
        FlowControl::Software => base.update(vstart() as int, 0x11u8).update(vstop() as int, 0x13u8),
        _ => base,
    }
}

/// The control flags `flags` become with the character size bits `size`, parity bits
/// `parity`, stop bits `stop` and flow control bits `flow`: the receiver on, the modem
/// control lines ignored, and every other flag outside [`settings_cflag_mask`] kept.
pub open spec fn configured_cflag(flags: u32, size: u32, parity: u32, stop: u32, flow: u32) -> u32 {
    (flags & !settings_cflag_mask()) | cread() | clocal() | size | parity | stop | flow
}

/// The input flags `flags` become with the parity checking bits `parity` and the
/// software flow control bits `flow`: every other flag outside
/// [`settings_iflag_mask`] kept.
pub open spec fn configured_iflag(flags: u32, parity: u32, flow: u32) -> u32 {
    (flags & !settings_iflag_mask()) | parity | flow
}

/// A tty's attributes after they are configured for `settings`: raw mode with the
/// receiver on and the modem control lines ignored, then the character size, parity,
/// stop bits and flow control that `settings` ask for. The line discipline and the
/// speed fields are left as they were (the speed is set by `cfsetspeed` afterwards).
pub open spec fn configured(t: TermiosView, settings: Settings) -> TermiosView {
    TermiosView {
        iflag: configured_iflag(
            t.iflag,
            parity_iflag_bits(settings.parity),
            flow_iflag_bits(settings.flow_control),
        ),
        oflag: t.oflag & !opost(),
        cflag: configured_cflag(
            t.cflag,
            char_size_bits(settings.data_bits),
            parity_cflag_bits(settings.parity),
            stop_bits_cflag_bits(settings.stop_bits),
            flow_cflag_bits(settings.flow_control),
        ),
        lflag: t.lflag & !raw_lflag_mask(),
        cc: configured_cc(t.cc, settings.flow_control),
        ..t
    }
}

/// Puts `termios` in raw mode, as `cfmakeraw` does.
pub fn make_raw(termios: &mut Termios)
    ensures
        final(termios)@ == raw_mode(old(termios)@),
{
    termios.iflag = termios.iflag & !(libc_ignbrk() | libc_brkint() | libc_parmrk() | libc_istrip()
        | libc_inlcr() | libc_igncr() | libc_icrnl() | libc_ixon());
    termios.oflag = termios.oflag & !libc_opost();
    termios.lflag = termios.lflag & !(libc_echo() | libc_echonl() | libc_icanon() | libc_isig()
        | libc_iexten());
    termios.cflag = termios.cflag & !(libc_csize() | libc_parenb());
    termios.cflag = termios.cflag | libc_cs8();
    termios.cc[libc_vmin()] = 1;
    termios.cc[libc_vtime()] = 0;
}


/// The control flags after configuration, from those after raw mode, step by step as
/// `apply_settings` sets them, equal the closed form of [`configured`].
proof fn lemma_cflag_steps(c0: u32, cs: u32, odd: bool, even: bool, two: bool, hardware: bool)
    by (bit_vector)
    requires
        cs == 0u32 || cs == 0x10u32 || cs == 0x20u32 || cs == 0x30u32,
        !(odd && even),
    ensures
        ({
            let c1 = ((c0 & !(0x30u32 | 0x100u32)) | 0x30u32) | 0x80u32 | 0x800u32;
            let c2 = (c1 & !0x30u32) | cs;
            let c3 = c2 & !(0x100u32 | 0x200u32);
            let c4 = if odd {
                c3 | (0x100u32 | 0x200u32)
            } else if even {
                c3 | 0x100u32
            } else {
                c3
            };
            let c5 = if two {
                c4 | 0x40u32
            } else {
                c4 & !0x40u32
            };
            let c6 = c5 & !0x80000000u32;
            let c7 = if hardware {
                c6 | 0x80000000u32
            } else {
                c6
            };
            c7 == (c0 & !(0x30u32 | 0x100u32 | 0x200u32 | 0x40u32 | 0x80000000u32)) | 0x80u32
                | 0x800u32 | cs | (if odd {
                0x100u32 | 0x200u32
            } else if even {
                0x100u32
            } else {
                0u32
            }) | (if two {
                0x40u32
            } else {
                0u32
            }) | (if hardware {
                0x80000000u32
            } else {
                0u32
            })
        }),
{
}

/// The input flags after configuration, from those before raw mode, step by step as
/// `apply_settings` sets them, equal the closed form of [`configured`].
proof fn lemma_iflag_steps(i0: u32, parity: bool, software: bool)
    by (bit_vector)
    ensures
        ({
            let i1 = i0 & !(0x1u32 | 0x2u32 | 0x8u32 | 0x20u32 | 0x40u32 | 0x80u32 | 0x100u32
                | 0x400u32);
            let i2 = i1 & !(0x10u32 | 0x4u32 | 0x8u32);
            let i3 = if parity {
                i2 | 0x10u32
            } else {
                i2
            };
            let i4 = i3 & !(0x400u32 | 0x1000u32 | 0x800u32);
            let i5 = if software {
                i4 | (0x400u32 | 0x1000u32)
            } else {
                i4
            };
            i5 == (i0 & !(0x1u32 | 0x2u32 | 0x8u32 | 0x20u32 | 0x40u32 | 0x80u32 | 0x100u32
                | 0x400u32 | 0x10u32 | 0x4u32 | 0x1000u32 | 0x800u32)) | (if parity {
                0x10u32
            } else {
                0u32
            }) | (if software {
                0x400u32 | 0x1000u32
            } else {
                0u32
            })
        }),
{
}

/// Configures `termios` for `settings` and returns the `speed_t` code of the baud
/// rate, for `cfsetspeed` to set.
pub fn apply_settings(termios: &mut Termios, settings: &Settings) -> (speed: u32)
    requires
        speed_code(settings.baud_rate) is Some,
    ensures
        final(termios)@ == configured(old(termios)@, *settings),
        speed_code(settings.baud_rate) == Some(speed),
{
    let ghost t0 = termios@;
    // Configure the tty to operate in raw mode
    make_raw(termios);

    // Enable receiving and ignore the modem control lines
    termios.cflag = termios.cflag | libc_cread();
    termios.cflag = termios.cflag | libc_clocal();

    // At least one byte per read, no read timeout
    termios.cc[libc_vmin()] = 1;
    termios.cc[libc_vtime()] = 0;

    // Character size
    termios.cflag = termios.cflag & !libc_csize();
    termios.cflag = termios.cflag | match settings.data_bits {
        DataBits::Five => libc_cs5(),
        DataBits::Six => libc_cs6(),
        DataBits::Seven => libc_cs7(),
        DataBits::Eight => libc_cs8(),
    };

    // Parity
    termios.cflag = termios.cflag & !(libc_parenb() | libc_parodd());
    termios.iflag = termios.iflag & !(libc_inpck() | libc_ignpar() | libc_parmrk());
    match settings.parity {
        Parity::NoParity => {},
        Parity::Odd => {
            termios.cflag = termios.cflag | (libc_parenb() | libc_parodd());
            termios.iflag = termios.iflag | libc_inpck();
        },
        Parity::Even => {
            termios.cflag = termios.cflag | libc_parenb();
            termios.iflag = termios.iflag | libc_inpck();
        },
    }

    // Stop bits: `CSTOPB` for two, clear for one
    match settings.stop_bits {
        StopBits::One => termios.cflag = termios.cflag & !libc_cstopb(),
        StopBits::Two => termios.cflag = termios.cflag | libc_cstopb(),
    }

    // Flow control
    termios.iflag = termios.iflag & !(libc_ixon() | libc_ixoff() | libc_ixany());
    termios.cflag = termios.cflag & !libc_crtscts();
    match settings.flow_control {
        FlowControl::NoFlowControl => {},
        FlowControl::Software => {
            termios.iflag = termios.iflag | (libc_ixon() | libc_ixoff());
            termios.cc[libc_vstart()] = 0x11;
            termios.cc[libc_vstop()] = 0x13;
        },
        FlowControl::Hardware => {
            termios.cflag = termios.cflag | libc_crtscts();
        },
    }

    proof {
        lemma_cflag_steps(
            t0.cflag,
            char_size_bits(settings.data_bits),
            settings.parity == Parity::Odd,
            settings.parity == Parity::Even,
            settings.stop_bits == StopBits::Two,
            settings.flow_control == FlowControl::Hardware,
        );
        lemma_iflag_steps(
            t0.iflag,
            settings.parity != Parity::NoParity,
            settings.flow_control == FlowControl::Software,
        );
        assert(termios@.cc =~= configured(t0, *settings).cc);
    }

    // Baud rate
    standard_baud_rate(settings.baud_rate).unwrap()
}

/// The number of data bits that the character size bits of `cflag` select.
pub open spec fn data_bits_of(cflag: u32) -> DataBits {
    let size = cflag & csize();
    if size == cs5() {
        DataBits::Five
    } else if size == cs6() {
        DataBits::Six
    } else if size == cs7() {
        DataBits::Seven
    } else {
        DataBits::Eight
    }
}

/// The parity mode that the parity flags of `cflag` select.
pub open spec fn parity_of(cflag: u32) -> Parity {
    if cflag & parenb() == 0 {
        Parity::NoParity
    } else if cflag & parodd() != 0 {
        Parity::Odd
    } else {
        Parity::Even
    }
}

/// The number of stop bits that `cflag` selects.
pub open spec fn stop_bits_of(cflag: u32) -> StopBits {
    if cflag & cstopb() != 0 {
        StopBits::Two
    } else {
        StopBits::One
    }
}

/// The flow control mode that `cflag` and `iflag` select: hardware with `CRTSCTS`,
/// software with both `IXON` and `IXOFF`, none otherwise.
pub open spec fn flow_control_of(cflag: u32, iflag: u32) -> FlowControl {
    if cflag & crtscts() != 0 {
        FlowControl::Hardware
    } else if iflag & (ixon() | ixoff()) == ixon() | ixoff() {
        FlowControl::Software
    } else {
        FlowControl::NoFlowControl
    }
}

/// The settings that the attributes `t` and the speed code `speed` describe, if
/// `speed` is the code of a standard baud rate.
pub open spec fn settings_of(t: TermiosView, speed: u32) -> Option<Settings> {
    match crate::speed::baud_rate_of_code(speed) {
        Some(baud_rate) => Some(
            Settings {
                baud_rate,
                data_bits: data_bits_of(t.cflag),
                parity: parity_of(t.cflag),
                stop_bits: stop_bits_of(t.cflag),
                flow_control: flow_control_of(t.cflag, t.iflag),
            },
        ),
        None => None,
    }
}

proof fn lemma_cflag_fields(x: u32, size: u32, parity: u32, stop: u32, flow: u32)
    by (bit_vector)
    requires
        size == cs5() || size == cs6() || size == cs7() || size == cs8(),
        parity == 0u32 || parity == parenb() | parodd() || parity == parenb(),
        stop == 0u32 || stop == cstopb(),
        flow == 0u32 || flow == crtscts(),
    ensures
        configured_cflag(x, size, parity, stop, flow) & csize() == size,
        (configured_cflag(x, size, parity, stop, flow) & parenb() == 0) == (parity == 0u32),
        (configured_cflag(x, size, parity, stop, flow) & parodd() != 0) == (parity == parenb()
            | parodd()),
        (configured_cflag(x, size, parity, stop, flow) & cstopb() != 0) == (stop != 0u32),
        (configured_cflag(x, size, parity, stop, flow) & crtscts() != 0) == (flow != 0u32),
        configured_cflag(x, size, parity, stop, flow) & cread() != 0,
        configured_cflag(x, size, parity, stop, flow) & clocal() != 0,
        configured_cflag(x, size, parity, stop, flow) & !(settings_cflag_mask() | cread()
            | clocal()) == x & !(settings_cflag_mask() | cread() | clocal()),
{
}

proof fn lemma_iflag_fields(x: u32, parity: u32, flow: u32)
    by (bit_vector)
    requires
        parity == 0u32 || parity == inpck(),
        flow == 0u32 || flow == ixon() | ixoff(),
    ensures
        (configured_iflag(x, parity, flow) & inpck() != 0) == (parity != 0u32),
        (configured_iflag(x, parity, flow) & (ixon() | ixoff()) == ixon() | ixoff()) == (flow
            != 0u32),
        configured_iflag(x, parity, flow) & (raw_iflag_mask() | ignpar() | ixany()) & !(ixon()
            | ixoff()) == 0,
        configured_iflag(x, parity, flow) & !settings_iflag_mask() == x & !settings_iflag_mask(),
        configured_iflag(x, parity, flow) & (ixon() | ixoff() | ixany()) == flow,
        configured_iflag(x, parity, flow) & (inpck() | ignpar() | parmrk()) == parity,
{
}

proof fn lemma_raw_flags(i: u32, o: u32, c: u32, l: u32)
    by (bit_vector)
    ensures
        ((c & !(csize() | parenb())) | cs8()) & (csize() | parenb()) == cs8(),
        ((c & !(csize() | parenb())) | cs8()) & !(csize() | parenb()) == c & !(csize() | parenb()),
        (i & !raw_iflag_mask()) & (ignbrk() | brkint() | parmrk() | istrip() | inlcr() | igncr()
            | icrnl() | ixon()) == 0,
        (i & !raw_iflag_mask()) & !(ignbrk() | brkint() | parmrk() | istrip() | inlcr() | igncr()
            | icrnl() | ixon()) == i & !(ignbrk() | brkint() | parmrk() | istrip() | inlcr()
            | igncr() | icrnl() | ixon()),
        (o & !opost()) & opost() == 0,
        (o & !opost()) & !opost() == o & !opost(),
        (l & !raw_lflag_mask()) & (echo() | echonl() | icanon() | isig() | iexten()) == 0,
        (l & !raw_lflag_mask()) & !(echo() | echonl() | icanon() | isig() | iexten()) == l & !(
        echo() | echonl() | icanon() | isig() | iexten()),
{
}

proof fn lemma_cflag_overrides(
    x: u32,
    size1: u32,
    parity1: u32,
    stop1: u32,
    flow1: u32,
    size2: u32,
    parity2: u32,
    stop2: u32,
    flow2: u32,
)
    by (bit_vector)
    requires
        size1 == cs5() || size1 == cs6() || size1 == cs7() || size1 == cs8(),
        parity1 == 0u32 || parity1 == parenb() | parodd() || parity1 == parenb(),
        stop1 == 0u32 || stop1 == cstopb(),
        flow1 == 0u32 || flow1 == crtscts(),
    ensures
        configured_cflag(configured_cflag(x, size1, parity1, stop1, flow1), size2, parity2, stop2, flow2)
            == configured_cflag(x, size2, parity2, stop2, flow2),
        configured_cflag((x & !(csize() | parenb())) | cs8(), size2, parity2, stop2, flow2)
            == configured_cflag(x, size2, parity2, stop2, flow2),
{
}

proof fn lemma_iflag_overrides(x: u32, parity1: u32, flow1: u32, parity2: u32, flow2: u32)
    by (bit_vector)
    requires
        parity1 == 0u32 || parity1 == inpck(),
        flow1 == 0u32 || flow1 == ixon() | ixoff(),
    ensures
        configured_iflag(configured_iflag(x, parity1, flow1), parity2, flow2) == configured_iflag(
            x,
            parity2,
            flow2,
        ),
        configured_iflag(x & !raw_iflag_mask(), parity2, flow2) == configured_iflag(
            x,
            parity2,
            flow2,
        ),
{
}

proof fn lemma_clear_twice(x: u32, mask: u32)
    by (bit_vector)
    ensures
        (x & !mask) & !mask == x & !mask,
        (x & !mask) & mask == 0,
{
}

proof fn lemma_flag_unions()
    by (bit_vector)
    ensures
        parenb() | parodd() == 0x300u32,
        ixon() | ixoff() == 0x1400u32,
{
}

/// Each part of the settings can be read back from the configured attributes: the
/// character size, parity, stop bits and flow control from the flags, and the baud
/// rate from the speed code that `apply_settings` hands to `cfsetspeed`.
pub proof fn lemma_configured_reads_back(t: TermiosView, settings: Settings)
    requires
        speed_code(settings.baud_rate) is Some,
    ensures
        settings_of(configured(t, settings), speed_code(settings.baud_rate).unwrap()) == Some(
            settings,
        ),
{
    lemma_cflag_fields(
        t.cflag,
        char_size_bits(settings.data_bits),
        parity_cflag_bits(settings.parity),
        stop_bits_cflag_bits(settings.stop_bits),
        flow_cflag_bits(settings.flow_control),
    );
    lemma_iflag_fields(
        t.iflag,
        parity_iflag_bits(settings.parity),
        flow_iflag_bits(settings.flow_control),
    );
    crate::speed::lemma_speed_code_round_trip(settings.baud_rate);
    lemma_flag_unions();
}

/// Whatever the settings, the configured attributes are raw and receiving: no input,
/// output or local processing, no echo, the receiver on and the modem control lines
/// ignored, input parity checking exactly when there is parity, reads that wait for
/// one byte with no timeout, and the conventional XON/XOFF characters with software
/// flow control.
pub proof fn lemma_configured_is_raw(t: TermiosView, settings: Settings)
    requires
        t.cc.len() == 32,
    ensures
        configured(t, settings).oflag & opost() == 0,
        configured(t, settings).lflag & raw_lflag_mask() == 0,
        configured(t, settings).iflag & (raw_iflag_mask() | ignpar() | ixany()) & !(ixon()
            | ixoff()) == 0,
        (configured(t, settings).iflag & inpck() != 0) == (settings.parity != Parity::NoParity),
        configured(t, settings).cflag & cread() != 0,
        configured(t, settings).cflag & clocal() != 0,
        configured(t, settings).cc[vmin() as int] == 1,
        configured(t, settings).cc[vtime() as int] == 0,
        settings.flow_control == FlowControl::Software ==> configured(t, settings).cc[vstart() as int]
            == 0x11 && configured(t, settings).cc[vstop() as int] == 0x13,
{
    lemma_cflag_fields(
        t.cflag,
        char_size_bits(settings.data_bits),
        parity_cflag_bits(settings.parity),
        stop_bits_cflag_bits(settings.stop_bits),
        flow_cflag_bits(settings.flow_control),
    );
    lemma_iflag_fields(
        t.iflag,
        parity_iflag_bits(settings.parity),
        flow_iflag_bits(settings.flow_control),
    );
    lemma_clear_twice(t.oflag, opost());
    lemma_clear_twice(t.lflag, raw_lflag_mask());
}

/// Configuring changes nothing that the settings do not decide: the flags outside the
/// settings' masks, the control characters other than `VMIN`, `VTIME`, `VSTART` and
/// `VSTOP`, the line discipline and the speed fields all keep their values.
pub proof fn lemma_configured_keeps_the_rest(t: TermiosView, settings: Settings, i: int)
    requires
        t.cc.len() == 32,
        0 <= i < t.cc.len(),
        i != vmin() as int,
        i != vtime() as int,
        i != vstart() as int,
        i != vstop() as int,
    ensures
        configured(t, settings).iflag & !settings_iflag_mask() == t.iflag & !settings_iflag_mask(),
        configured(t, settings).oflag & !opost() == t.oflag & !opost(),
        configured(t, settings).cflag & !(settings_cflag_mask() | cread() | clocal()) == t.cflag
            & !(settings_cflag_mask() | cread() | clocal()),
        configured(t, settings).lflag & !raw_lflag_mask() == t.lflag & !raw_lflag_mask(),
        configured(t, settings).cc.len() == t.cc.len(),
        configured(t, settings).cc[i] == t.cc[i],
        configured(t, settings).line == t.line,
        configured(t, settings).ispeed == t.ispeed,
        configured(t, settings).ospeed == t.ospeed,
{
    lemma_cflag_fields(
        t.cflag,
        char_size_bits(settings.data_bits),
        parity_cflag_bits(settings.parity),
        stop_bits_cflag_bits(settings.stop_bits),
        flow_cflag_bits(settings.flow_control),
    );
    lemma_iflag_fields(
        t.iflag,
        parity_iflag_bits(settings.parity),
        flow_iflag_bits(settings.flow_control),
    );
    lemma_clear_twice(t.oflag, opost());
    lemma_clear_twice(t.lflag, raw_lflag_mask());
}

/// Configuring a second time with other settings leaves the same flags as
/// configuring once with those settings: no flag of the first settings survives.
/// With the same settings, configuring twice gives what configuring once gives.
pub proof fn lemma_configured_overrides(t: TermiosView, first: Settings, second: Settings)
    requires
        t.cc.len() == 32,
    ensures
        configured(configured(t, first), second).iflag == configured(t, second).iflag,
        configured(configured(t, first), second).oflag == configured(t, second).oflag,
        configured(configured(t, first), second).cflag == configured(t, second).cflag,
        configured(configured(t, first), second).lflag == configured(t, second).lflag,
        configured(configured(t, first), first) == configured(t, first),
{
    lemma_cflag_overrides(
        t.cflag,
        char_size_bits(first.data_bits),
        parity_cflag_bits(first.parity),
        stop_bits_cflag_bits(first.stop_bits),
        flow_cflag_bits(first.flow_control),
        char_size_bits(second.data_bits),
        parity_cflag_bits(second.parity),
        stop_bits_cflag_bits(second.stop_bits),
        flow_cflag_bits(second.flow_control),
    );
    lemma_iflag_overrides(
        t.iflag,
        parity_iflag_bits(first.parity),
        flow_iflag_bits(first.flow_control),
        parity_iflag_bits(second.parity),
        flow_iflag_bits(second.flow_control),
    );
    lemma_clear_twice(t.oflag, opost());
    lemma_clear_twice(t.lflag, raw_lflag_mask());
    lemma_cflag_overrides(
        t.cflag,
        char_size_bits(first.data_bits),
        parity_cflag_bits(first.parity),
        stop_bits_cflag_bits(first.stop_bits),
        flow_cflag_bits(first.flow_control),
        char_size_bits(first.data_bits),
        parity_cflag_bits(first.parity),
        stop_bits_cflag_bits(first.stop_bits),
        flow_cflag_bits(first.flow_control),
    );
    lemma_iflag_overrides(
        t.iflag,
        parity_iflag_bits(first.parity),
        flow_iflag_bits(first.flow_control),
        parity_iflag_bits(first.parity),
        flow_iflag_bits(first.flow_control),
    );
    let once = configured(t, first);
    let twice = configured(once, first);
    assert(twice.cc =~= once.cc);
    assert(twice =~= once);
}

/// Whether the attributes were in raw mode already makes no difference to the
/// configured attributes: configuring does all that raw mode does.
pub proof fn lemma_configured_absorbs_raw_mode(t: TermiosView, settings: Settings)
    requires
        t.cc.len() == 32,
    ensures
        configured(raw_mode(t), settings) == configured(t, settings),
{
    lemma_cflag_overrides(
        t.cflag,
        cs8(),
        0,
        0,
        0,
        char_size_bits(settings.data_bits),
        parity_cflag_bits(settings.parity),
        stop_bits_cflag_bits(settings.stop_bits),
        flow_cflag_bits(settings.flow_control),
    );
    lemma_iflag_overrides(
        t.iflag,
        0,
        0,
        parity_iflag_bits(settings.parity),
        flow_iflag_bits(settings.flow_control),
    );
    lemma_clear_twice(t.oflag, opost());
    lemma_clear_twice(t.lflag, raw_lflag_mask());
    assert(configured(raw_mode(t), settings).cc =~= configured(t, settings).cc);
    assert(configured(raw_mode(t), settings) =~= configured(t, settings));
}

/// Raw mode does what `cfmakeraw` is documented to do: it clears `IGNBRK`, `BRKINT`,
/// `PARMRK`, `ISTRIP`, `INLCR`, `IGNCR`, `ICRNL` and `IXON`, `OPOST`, and `ECHO`,
/// `ECHONL`, `ICANON`, `ISIG` and `IEXTEN`; it makes the character size eight bits with
/// `PARENB` clear; it sets `VMIN` to 1 and `VTIME` to 0; and it changes nothing else.
pub proof fn lemma_raw_mode(t: TermiosView, i: int)
    requires
        t.cc.len() == 32,
        0 <= i < 32,
        i != vmin() as int,
        i != vtime() as int,
    ensures
        raw_mode(t).cflag & (csize() | parenb()) == cs8(),
        raw_mode(t).cflag & !(csize() | parenb()) == t.cflag & !(csize() | parenb()),
        raw_mode(t).iflag & (ignbrk() | brkint() | parmrk() | istrip() | inlcr() | igncr() | icrnl()
            | ixon()) == 0,
        raw_mode(t).iflag & !(ignbrk() | brkint() | parmrk() | istrip() | inlcr() | igncr()
            | icrnl() | ixon()) == t.iflag & !(ignbrk() | brkint() | parmrk() | istrip() | inlcr()
            | igncr() | icrnl() | ixon()),
        raw_mode(t).oflag & opost() == 0,
        raw_mode(t).oflag & !opost() == t.oflag & !opost(),
        raw_mode(t).lflag & (echo() | echonl() | icanon() | isig() | iexten()) == 0,
        raw_mode(t).lflag & !(echo() | echonl() | icanon() | isig() | iexten()) == t.lflag & !(
        echo() | echonl() | icanon() | isig() | iexten()),
        raw_mode(t).cc.len() == 32,
        raw_mode(t).cc[vmin() as int] == 1,
        raw_mode(t).cc[vtime() as int] == 0,
        raw_mode(t).cc[i] == t.cc[i],
        raw_mode(t).line == t.line,
        raw_mode(t).ispeed == t.ispeed,
        raw_mode(t).ospeed == t.ospeed,
{
    lemma_raw_flags(t.iflag, t.oflag, t.cflag, t.lflag);
}

/// The flow control flags of the configured attributes depend on the flow control
/// mode alone: `IXON` and `IXOFF` exactly with software flow control, `IXANY` never,
/// and `CRTSCTS` exactly with hardware flow control, whatever the attributes held
/// before.
pub proof fn lemma_configured_flow_control(t: TermiosView, settings: Settings)
    ensures
        configured(t, settings).iflag & (ixon() | ixoff() | ixany()) == (if settings.flow_control
            == FlowControl::Software {
            ixon() | ixoff()
        } else {
            0u32
        }),
        (configured(t, settings).cflag & crtscts() != 0) == (settings.flow_control
            == FlowControl::Hardware),
{
    lemma_iflag_fields(
        t.iflag,
        parity_iflag_bits(settings.parity),
        flow_iflag_bits(settings.flow_control),
    );
    lemma_cflag_fields(
        t.cflag,
        char_size_bits(settings.data_bits),
        parity_cflag_bits(settings.parity),
        stop_bits_cflag_bits(settings.stop_bits),
        flow_cflag_bits(settings.flow_control),
    );
}

/// The framing flags of the configured attributes depend on the settings alone: the
/// character size is `CS5` to `CS8` for five to eight data bits, `PARENB` is set
/// exactly with parity and `PARODD` exactly with odd parity, input parity checking
/// (`INPCK`) is on exactly with parity while `IGNPAR` and `PARMRK` are off, `CSTOPB`
/// is set exactly with two stop bits, and the receiver is on with the modem control
/// lines ignored.
pub proof fn lemma_configured_framing(t: TermiosView, settings: Settings)
    ensures
        configured(t, settings).cflag & csize() == (match settings.data_bits {
            DataBits::Five => cs5(),
            DataBits::Six => cs6(),
            DataBits::Seven => cs7(),
            DataBits::Eight => cs8(),
        }),
        (configured(t, settings).cflag & parenb() != 0) == (settings.parity != Parity::NoParity),
        (configured(t, settings).cflag & parodd() != 0) == (settings.parity == Parity::Odd),
        configured(t, settings).iflag & (inpck() | ignpar() | parmrk()) == (if settings.parity
            == Parity::NoParity {
            0u32
        } else {
            inpck()
        }),
        (configured(t, settings).cflag & cstopb() != 0) == (settings.stop_bits == StopBits::Two),
        configured(t, settings).cflag & cread() != 0,
        configured(t, settings).cflag & clocal() != 0,
{
    lemma_iflag_fields(
        t.iflag,
        parity_iflag_bits(settings.parity),
        flow_iflag_bits(settings.flow_control),
    );
    lemma_cflag_fields(
        t.cflag,
        char_size_bits(settings.data_bits),
        parity_cflag_bits(settings.parity),
        stop_bits_cflag_bits(settings.stop_bits),
        flow_cflag_bits(settings.flow_control),
    );
    lemma_flag_unions();
}

} // verus!
