use tokio_serialport::{
    modem_line_bit, modem_line_is_asserted, modem_line_request, syscall_failed, transfer_outcome,
    ModemLine, TransferOutcome,
};

#[test]
fn modem_lines_use_the_tiocm_bits() {
    assert_eq!(modem_line_bit(ModemLine::DataTerminalReady), libc::TIOCM_DTR);
    assert_eq!(modem_line_bit(ModemLine::RequestToSend), libc::TIOCM_RTS);
    assert_eq!(modem_line_bit(ModemLine::ClearToSend), libc::TIOCM_CTS);
    assert_eq!(modem_line_bit(ModemLine::DataSetReady), libc::TIOCM_DSR);
    assert_eq!(modem_line_bit(ModemLine::RingIndicator), libc::TIOCM_RI);
    assert_eq!(modem_line_bit(ModemLine::CarrierDetect), libc::TIOCM_CD);
}

#[test]
fn asserting_a_line_uses_tiocmbis_and_deasserting_tiocmbic() {
    assert_eq!(modem_line_request(true), libc::TIOCMBIS);
    assert_eq!(modem_line_request(false), libc::TIOCMBIC);
}

#[test]
fn status_words_show_each_line_on_its_own() {
    let status = libc::TIOCM_CTS | libc::TIOCM_DSR;
    assert!(modem_line_is_asserted(status, ModemLine::ClearToSend));
    assert!(modem_line_is_asserted(status, ModemLine::DataSetReady));
    assert!(!modem_line_is_asserted(status, ModemLine::RingIndicator));
    assert!(!modem_line_is_asserted(status, ModemLine::CarrierDetect));
    assert!(!modem_line_is_asserted(0, ModemLine::ClearToSend));
}

#[test]
fn only_minus_one_is_a_failed_syscall() {
    assert!(syscall_failed(-1));
    assert!(!syscall_failed(0));
    assert!(!syscall_failed(3));
    assert!(!syscall_failed(-2));
}

#[test]
fn transfers_retry_only_when_interrupted() {
    assert_eq!(transfer_outcome(5, true), TransferOutcome::Transferred(5));
    assert_eq!(transfer_outcome(0, false), TransferOutcome::Transferred(0));
    assert_eq!(transfer_outcome(-1, true), TransferOutcome::Retry);
    assert_eq!(transfer_outcome(-1, false), TransferOutcome::Failed);
}
