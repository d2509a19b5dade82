use tokio_serialport::{DataBits, FlowControl, Parity, SerialPortBuilder, Settings, StopBits};

#[test]
fn defaults_to_9600_8_n_1() {
    let builder = SerialPortBuilder::new(b"/dev/port", 9600);

    assert_eq!(builder.path(), b"/dev/port");
    assert_eq!(
        builder.settings(),
        Settings {
            baud_rate: 9600,
            data_bits: DataBits::Eight,
            parity: Parity::NoParity,
            stop_bits: StopBits::One,
            flow_control: FlowControl::NoFlowControl,
        }
    );
}

#[test]
fn configures_serial_options() {
    let builder = SerialPortBuilder::new(b"/dev/port", 9600)
        .baud_rate(115200)
        .data_bits(DataBits::Seven)
        .flow_control(FlowControl::Hardware)
        .parity(Parity::Even)
        .stop_bits(StopBits::Two);

    assert_eq!(builder.path(), b"/dev/port");
    assert_eq!(
        builder.settings(),
        Settings {
            baud_rate: 115200,
            data_bits: DataBits::Seven,
            parity: Parity::Even,
            stop_bits: StopBits::Two,
            flow_control: FlowControl::Hardware,
        }
    );
}

#[test]
fn settings_new_is_8n1_without_flow_control() {
    let settings = Settings::new(57600);
    assert_eq!(settings.baud_rate, 57600);
    assert_eq!(settings.data_bits, DataBits::Eight);
    assert_eq!(settings.parity, Parity::NoParity);
    assert_eq!(settings.stop_bits, StopBits::One);
    assert_eq!(settings.flow_control, FlowControl::NoFlowControl);
}

#[test]
fn setting_an_option_twice_keeps_the_last_value() {
    let builder = SerialPortBuilder::new(b"/dev/ttyUSB0", 9600)
        .parity(Parity::Odd)
        .baud_rate(19200)
        .parity(Parity::Even)
        .baud_rate(4800);
    assert_eq!(builder.settings().parity, Parity::Even);
    assert_eq!(builder.settings().baud_rate, 4800);
    assert_eq!(builder.path(), b"/dev/ttyUSB0");
}

#[test]
fn options_set_in_either_order_agree() {
    let a = SerialPortBuilder::new(b"/dev/ttyS1", 9600)
        .data_bits(DataBits::Five)
        .stop_bits(StopBits::Two)
        .flow_control(FlowControl::Software);
    let b = SerialPortBuilder::new(b"/dev/ttyS1", 9600)
        .flow_control(FlowControl::Software)
        .stop_bits(StopBits::Two)
        .data_bits(DataBits::Five);
    assert_eq!(a.settings(), b.settings());
    assert_eq!(a.path(), b.path());
}

#[test]
fn path_bytes_need_not_be_utf8() {
    let path: &[u8] = &[b'/', b'd', b'e', b'v', b'/', 0xff, 0xfe];
    let builder = SerialPortBuilder::new(path, 300);
    assert_eq!(builder.path(), path);
    assert_eq!(builder.settings().baud_rate, 300);
}
