//! Register access for the DRV8305 three-phase gate driver.
//!
//! The chip speaks 16-bit frames: bit 15 selects read (1) or write (0),
//! bits 14..11 carry the register address and bits 10..0 the data.
//! `register` decodes and encodes the register contents field by field,
//! `command` frames requests, and `transaction` sequences one chip-select
//! framed exchange on the bus.

pub mod field;
pub mod register;
pub mod command;
pub mod transaction;
pub mod driver;
