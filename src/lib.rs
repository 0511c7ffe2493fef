//! Driver logic for a USB virtual serial port on the ATmega32U4.
//!
//! The USB transfer engine and the hardware registers are reached by the
//! firmware that embeds this library; what is kept here is every decision the
//! driver makes between those calls, each with its contract:
//!
//! * [`signals`]: decoding the control-signal byte into DTR and RTS;
//! * [`bring_up`]: the ordered hardware bring-up sequence, as a step machine;
//! * [`stream`]: the non-blocking read and write results, and the byte-by-byte
//!   delivery of formatted text.
pub mod bring_up;
pub mod signals;
pub mod stream;
