//! A driver for an eight-pin I/O expander on a serial bus, written as a
//! verified state machine: each pin operation yields the next bus transfer,
//! and each transfer completion yields the next step of the transaction.
pub mod buffer;
pub mod device;
pub mod pin;
pub mod register;
