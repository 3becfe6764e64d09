//! Write-only 16-bit parallel ("8080-style") display bus driver.
//!
//! The driver turns heterogeneous command and pixel-data payloads into a
//! uniform stream of 16-bit bus words and drives each word onto a parallel
//! GPIO bus with the control-line framing (chip-select, write-strobe,
//! data/command select, read-strobe) that a panel controller samples.
//! The bus and control-line capability is abstract: its contract records
//! every commanded transition in a history, and the driver's contracts pin
//! down exactly which transitions each operation commands, in which order.

pub mod format;
pub mod interface;
pub mod port;
pub mod signal;
