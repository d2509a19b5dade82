use tokio_serialport::{
    apply_settings, make_raw, standard_baud_rate, DataBits, FlowControl, Parity, Settings,
    StopBits, Termios,
};

/// The attributes of a freshly opened Linux tty in cooked mode.
fn cooked() -> Termios {
    let mut cc = [0u8; 32];
    let defaults: [u8; 17] = [3, 28, 127, 21, 4, 0, 1, 0, 17, 19, 26, 0, 18, 15, 23, 22, 0];
    cc[..17].copy_from_slice(&defaults);
    Termios {
        iflag: libc::ICRNL | libc::IXON,
        oflag: libc::OPOST | libc::ONLCR,
        cflag: libc::B38400 | libc::CS8 | libc::CREAD | libc::HUPCL,
        lflag: libc::ISIG
            | libc::ICANON
            | libc::ECHO
            | libc::ECHOE
            | libc::ECHOK
            | libc::IEXTEN
            | libc::ECHOCTL
            | libc::ECHOKE,
        line: 0,
        cc,
        ispeed: libc::B38400,
        ospeed: libc::B38400,
    }
}

#[test]
fn applies_configured_settings() {
    let mut termios = cooked();
    let settings = Settings {
        baud_rate: 19_200,
        data_bits: DataBits::Seven,
        parity: Parity::Even,
        stop_bits: StopBits::Two,
        flow_control: FlowControl::Hardware,
    };
    let speed = apply_settings(&mut termios, &settings);
    assert_eq!(termios.cflag & libc::CSIZE, libc::CS7);
    assert_eq!(termios.cflag & libc::PARENB, libc::PARENB);
    assert_eq!(termios.cflag & libc::PARODD, 0);
    assert_eq!(termios.cflag & libc::CSTOPB, libc::CSTOPB);
    assert_eq!(termios.cflag & libc::CRTSCTS, libc::CRTSCTS);
    assert_eq!(speed, libc::B19200);
}

#[test]
fn supports_general_linux_baud_rates() {
    let expected = [
        (50, libc::B50),
        (75, libc::B75),
        (110, libc::B110),
        (134, libc::B134),
        (150, libc::B150),
        (200, libc::B200),
        (300, libc::B300),
        (600, libc::B600),
        (1_200, libc::B1200),
        (1_800, libc::B1800),
        (2_400, libc::B2400),
        (4_800, libc::B4800),
        (9_600, libc::B9600),
        (19_200, libc::B19200),
        (38_400, libc::B38400),
        (57_600, libc::B57600),
        (115_200, libc::B115200),
        (230_400, libc::B230400),
        (460_800, libc::B460800),
        (500_000, libc::B500000),
        (576_000, libc::B576000),
        (921_600, libc::B921600),
        (1_000_000, libc::B1000000),
        (1_152_000, libc::B1152000),
        (1_500_000, libc::B1500000),
        (2_000_000, libc::B2000000),
    ];
    for (baud_rate, speed) in expected {
        assert_eq!(standard_baud_rate(baud_rate), Some(speed));
    }
}

#[test]
fn supports_non_sparc_baud_rates() {
    assert_eq!(standard_baud_rate(2_500_000), Some(libc::B2500000));
    assert_eq!(standard_baud_rate(3_000_000), Some(libc::B3000000));
    assert_eq!(standard_baud_rate(3_500_000), Some(libc::B3500000));
    assert_eq!(standard_baud_rate(4_000_000), Some(libc::B4000000));
    assert_eq!(standard_baud_rate(76_800), None);
}

#[test]
fn rejects_non_standard_baud_rates() {
    for baud_rate in [0, 1, 49, 51, 9_601, 14_400, 153_600, 4_000_001, u32::MAX] {
        assert_eq!(standard_baud_rate(baud_rate), None);
    }
}

#[test]
fn speed_codes_are_the_octal_termios_codes() {
    assert_eq!(standard_baud_rate(50), Some(0o1));
    assert_eq!(standard_baud_rate(38_400), Some(0o17));
    assert_eq!(standard_baud_rate(57_600), Some(0o10001));
    assert_eq!(standard_baud_rate(4_000_000), Some(0o10017));
}

#[test]
fn make_raw_matches_cfmakeraw() {
    let mut termios = cooked();
    let before = termios;
    make_raw(&mut termios);
    assert_eq!(termios.iflag, 0);
    assert_eq!(termios.oflag, libc::ONLCR);
    assert_eq!(termios.lflag, libc::ECHOE | libc::ECHOK | libc::ECHOCTL | libc::ECHOKE);
    assert_eq!(termios.cflag, libc::B38400 | libc::CS8 | libc::CREAD | libc::HUPCL);
    assert_eq!(termios.cc[libc::VMIN], 1);
    assert_eq!(termios.cc[libc::VTIME], 0);
    assert_eq!(termios.cc[libc::VINTR], before.cc[libc::VINTR]);
    assert_eq!(termios.ispeed, before.ispeed);
}

#[test]
fn default_settings_configure_a_raw_8n1_port() {
    let mut termios = cooked();
    let speed = apply_settings(&mut termios, &Settings::new(9_600));
    assert_eq!(speed, libc::B9600);
    assert_eq!(termios.cflag & libc::CSIZE, libc::CS8);
    assert_eq!(termios.cflag & libc::PARENB, 0);
    assert_eq!(termios.cflag & libc::CSTOPB, 0);
    assert_eq!(termios.cflag & libc::CRTSCTS, 0);
    assert_eq!(termios.cflag & libc::CREAD, libc::CREAD);
    assert_eq!(termios.cflag & libc::CLOCAL, libc::CLOCAL);
    assert_eq!(termios.iflag, 0);
    assert_eq!(termios.oflag & libc::OPOST, 0);
    assert_eq!(termios.lflag & (libc::ICANON | libc::ECHO | libc::ISIG), 0);
    assert_eq!(termios.cc[libc::VMIN], 1);
    assert_eq!(termios.cc[libc::VTIME], 0);
}

#[test]
fn odd_parity_sets_parodd_and_input_checking() {
    let mut termios = cooked();
    termios.iflag |= libc::IGNPAR | libc::PARMRK | libc::IXANY;
    let settings = Settings::new(115_200);
    let settings = Settings { parity: Parity::Odd, data_bits: DataBits::Five, ..settings };
    let speed = apply_settings(&mut termios, &settings);
    assert_eq!(speed, libc::B115200);
    assert_eq!(termios.cflag & (libc::PARENB | libc::PARODD), libc::PARENB | libc::PARODD);
    assert_eq!(termios.cflag & libc::CSIZE, libc::CS5);
    assert_eq!(termios.iflag, libc::INPCK);
}

#[test]
fn software_flow_control_sets_xon_xoff() {
    let mut termios = cooked();
    termios.cc[libc::VSTART] = 0;
    termios.cc[libc::VSTOP] = 0;
    let settings = Settings { flow_control: FlowControl::Software, ..Settings::new(2_400) };
    apply_settings(&mut termios, &settings);
    assert_eq!(termios.iflag & (libc::IXON | libc::IXOFF | libc::IXANY), libc::IXON | libc::IXOFF);
    assert_eq!(termios.cflag & libc::CRTSCTS, 0);
    assert_eq!(termios.cc[libc::VSTART], 0x11);
    assert_eq!(termios.cc[libc::VSTOP], 0x13);
}

#[test]
fn reconfiguring_leaves_no_trace_of_earlier_settings() {
    let first = Settings {
        baud_rate: 300,
        data_bits: DataBits::Six,
        parity: Parity::Odd,
        stop_bits: StopBits::Two,
        flow_control: FlowControl::Hardware,
    };
    let second = Settings::new(1_200);
    let mut twice = cooked();
    apply_settings(&mut twice, &first);
    apply_settings(&mut twice, &second);
    let mut once = cooked();
    apply_settings(&mut once, &second);
    assert_eq!(twice, once);
}

#[test]
fn configuring_twice_is_configuring_once() {
    let settings = Settings { flow_control: FlowControl::Software, ..Settings::new(600) };
    let mut once = cooked();
    apply_settings(&mut once, &settings);
    let mut twice = once;
    apply_settings(&mut twice, &settings);
    assert_eq!(twice, once);
}

#[test]
fn configuring_keeps_unrelated_fields() {
    let mut termios = cooked();
    termios.line = 7;
    termios.cc[libc::VINTR] = 99;
    termios.cflag |= libc::HUPCL;
    apply_settings(&mut termios, &Settings::new(4_800));
    assert_eq!(termios.line, 7);
    assert_eq!(termios.cc[libc::VINTR], 99);
    assert_eq!(termios.cflag & libc::HUPCL, libc::HUPCL);
    assert_eq!(termios.cflag & libc::CBAUD, libc::B38400);
    assert_eq!(termios.ispeed, libc::B38400);
}

#[test]
fn configured_flags_have_the_linux_values() {
    let blank = Termios {
        iflag: 0,
        oflag: 0,
        cflag: 0,
        lflag: 0,
        line: 0,
        cc: [0; 32],
        ispeed: 0,
        ospeed: 0,
    };
    let mut hardware = blank;
    let settings = Settings {
        baud_rate: 75,
        data_bits: DataBits::Seven,
        parity: Parity::Odd,
        stop_bits: StopBits::Two,
        flow_control: FlowControl::Hardware,
    };
    assert_eq!(apply_settings(&mut hardware, &settings), 2);
    assert_eq!(hardware.cflag, 0x8000_0BE0);
    assert_eq!(hardware.iflag, 0x10);
    assert_eq!(hardware.cc[6], 1);

    let mut software = blank;
    let settings = Settings { flow_control: FlowControl::Software, ..Settings::new(3_500_000) };
    assert_eq!(apply_settings(&mut software, &settings), 0o10016);
    assert_eq!(software.cflag, 0x8B0);
    assert_eq!(software.iflag, 0x1400);
    assert_eq!(software.cc[8], 0x11);
    assert_eq!(software.cc[9], 0x13);
}
