//! Register operations on top of the bus exchange: what to send for a
//! read or a write, and what the reply means.
//!
//! On a write the chip answers with the register's previous contents, not
//! the new ones; a caller that needs the new state reads again.
use vstd::prelude::*;
use crate::command::{wire_word, FramingError, SpiCommand, MAX_PAYLOAD};
use crate::register::{DecodeError, Register};

verus! {

/// Why a register operation failed, and in which phase.
#[derive(Debug)]
pub enum DriverError<E> {
    /// The value to write does not fit in a frame.
    Framing(FramingError),
    /// The bus failed.
    Transport(E),
    /// The reply names no value of the register.
    Decode(DecodeError),
}

/// What decoding a reply as register `R` gives.
pub open spec fn reply_value<R: Register, E>(reply: Result<u16, E>) -> Result<R, DriverError<E>> {
    match reply {
        Err(e) => Err(DriverError::Transport(e)),
        Ok(w) => match R::decode_spec(w) {
            Ok(v) => Ok(v),
            Err(d) => Err(DriverError::Decode(d)),
        },
    }
}

/// The frame that reads register `R`.
pub fn read_request<R: Register>() -> (w: u16)
    ensures
        w == wire_word(true, R::addr_spec(), 0),
{
    SpiCommand::<R>::read().to_wire()
}

/// The outcome of a read: the reply decoded as `R`.
pub fn read_reply<R: Register, E>(reply: Result<u16, E>) -> (r: Result<R, DriverError<E>>)
    ensures
        r == reply_value::<R, E>(reply),
{
    match reply {
        Err(e) => Err(DriverError::Transport(e)),
        Ok(w) => match R::parse(w) {
            Ok(v) => Ok(v),
            Err(d) => Err(DriverError::Decode(d)),
        },
    }
}

/// The frame that writes `value` into its register; fails when the encoded
/// value has a bit set above bit 10.
pub fn write_request<R: Register, E>(value: &R) -> (r: Result<u16, DriverError<E>>)
    ensures
        r is Ok <==> value.encode_spec() <= MAX_PAYLOAD,
        r matches Ok(w) ==> w == wire_word(false, R::addr_spec(), value.encode_spec()),
        r matches Err(e) ==> e == DriverError::<E>::Framing(FramingError::PayloadTooWide),
{
    match SpiCommand::<R>::write(value.data()) {
        Ok(cmd) => Ok(cmd.to_wire()),
        Err(f) => Err(DriverError::Framing(f)),
    }
}

/// The outcome of a write: the register's previous contents, as the chip
/// sent them.
pub fn write_reply<E>(reply: Result<u16, E>) -> (r: Result<u16, DriverError<E>>)
    ensures
        reply matches Ok(w) ==> r == Ok::<u16, DriverError<E>>(w),
        reply matches Err(e) ==> r == Err::<u16, DriverError<E>>(DriverError::Transport(e)),
{
    match reply {
        Ok(w) => Ok(w),
        Err(e) => Err(DriverError::Transport(e)),
    }
}

/// The outcome of a read-modify-write: the reply to the write decoded as
/// `R`. That reply holds the register's contents from before the write, so
/// this is the old value, not the one just written.
pub fn modify_reply<R: Register, E>(reply: Result<u16, E>) -> (r: Result<R, DriverError<E>>)
    ensures
        r == reply_value::<R, E>(reply),
{
    read_reply(reply)
}

} // verus!
