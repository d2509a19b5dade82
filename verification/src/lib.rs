//! Serial port configuration for Tokio on Linux: the line settings, the port
//! builder, and the termios, baud rate and modem-line logic behind opening and
//! driving a port.

pub mod builder;
pub mod consts;
pub mod modem;
pub mod settings;
pub mod speed;
pub mod syscall;
pub mod termios;

pub use builder::SerialPortBuilder;
pub use settings::{DataBits, FlowControl, Parity, Settings, StopBits};
pub use speed::standard_baud_rate;
pub use modem::{modem_line_bit, modem_line_is_asserted, modem_line_request, ModemLine};
pub use syscall::{syscall_failed, transfer_outcome, TransferOutcome};
pub use termios::{apply_settings, make_raw, Termios};
