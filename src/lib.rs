//! Board support for the S32K144 evaluation board, centred on a verified
//! driver for the FlexCAN controller.
//!
//! - `timing`: the CAN bit timing derived from a clock and a bit rate.
//! - `code`: the four-bit CODE of a message buffer and its meaning.
//! - `frame`: CAN identifiers and frames.
//! - `mailbox`: how a header and a frame are laid out in the four words of a
//!   message buffer, and read back.
//! - `can`: the controller's start-up sequence and the transmit and receive
//!   protocol. The driver decides which register accesses to make and in
//!   what order; it takes what was read as arguments and returns the
//!   accesses as values, for the register block's owner to perform.
//! - `lpuart`, `pc`, `pcc`, `wdog`, `csec`: settings and decisions of the
//!   UART, the clocks, the clock gates, the watchdog and the cryptographic
//!   engine.

pub mod can;
pub mod code;
pub mod csec;
pub mod frame;
pub mod lpuart;
pub mod mailbox;
pub mod pc;
pub mod pcc;
pub mod timing;
pub mod wdog;
