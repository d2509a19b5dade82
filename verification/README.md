# tokio_serialport

Serial ports for Tokio on Linux.

- `src/` is the verified library: the line settings (`settings.rs`), the port
  builder (`builder.rs`), the standard baud rate table (`speed.rs`), the termios
  configuration with raw mode (`termios.rs`), the modem-line helpers (`modem.rs`),
  the syscall outcome helpers (`syscall.rs`), and the values of the `libc` constants
  they use (`consts.rs`).
- `app/` opens the device, reads and writes the termios attributes with `libc`, and
  drives the file descriptor with Tokio's `AsyncFd`.
- `tests/` exercises the library on concrete values.
