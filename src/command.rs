//! Request frames: read or write, the register's address and the data.
use vstd::prelude::*;
use core::marker::PhantomData;
use crate::register::Register;

verus! {

/// Bit 15 of a frame: 1 reads, 0 writes.
#[derive(Clone, Copy, Debug, PartialEq, Eq, Structural)]
pub enum RwMode {
    Read,
    Write,
}

/// Why a request frame could not be built.
#[derive(Clone, Copy, Debug, PartialEq, Eq, Structural)]
pub enum FramingError {
    /// The payload has a bit set above bit 10.
    PayloadTooWide,
}

/// The largest payload a frame carries: eleven bits.
pub const MAX_PAYLOAD: u16 = 0x7ff;

/// The frame for a request: bit 15 is 1 for a read, bits 14..11 hold the
/// address (its low four bits), bits 10..0 the payload.
pub open spec fn wire_word(read: bool, address: u8, payload: u16) -> int {
    (if read { 0x8000int } else { 0int }) + (address % 16) * 0x800 + payload
}

/// A request to register `REG`.
pub struct SpiCommand<REG> {
    rw: RwMode,
    data: u16,
    _register: PhantomData<REG>,
}

impl<T: Register> SpiCommand<T> {
    /// The request reads the register.
    pub closed spec fn is_read(&self) -> bool {
        self.rw == RwMode::Read
    }

    /// The data the request carries.
    pub closed spec fn payload(&self) -> u16 {
        self.data
    }

    /// A write request carries at most eleven bits of data, a read none.
    pub closed spec fn wf(&self) -> bool {
        self.data <= MAX_PAYLOAD && (self.rw == RwMode::Read ==> self.data == 0)
    }

    /// A request that writes `data` into the register; fails when `data`
    /// has a bit set above bit 10, rather than cutting it.
    pub fn write(data: u16) -> (r: Result<SpiCommand<T>, FramingError>)
        ensures
            r is Ok <==> data <= MAX_PAYLOAD,
            r matches Ok(c) ==> !c.is_read() && c.payload() == data && c.wf(),
            r is Err ==> r == Err::<SpiCommand<T>, FramingError>(FramingError::PayloadTooWide),
    {
        if data & !MAX_PAYLOAD != 0 {
            assert(data & !0x7ffu16 != 0 ==> data > 0x7ff) by (bit_vector);
            Err(FramingError::PayloadTooWide)
        } else {
            assert(data & !0x7ffu16 == 0 ==> data <= 0x7ff) by (bit_vector);
            Ok(SpiCommand { rw: RwMode::Write, _register: PhantomData, data })
        }
    }

    /// A request that reads the register; its payload is zero.
    pub fn read() -> (r: SpiCommand<T>)
        ensures
            r.is_read(),
            r.payload() == 0,
            r.wf(),
    {
        SpiCommand { rw: RwMode::Read, _register: PhantomData, data: 0 }
    }

    /// The 16-bit frame of the request.
    pub fn to_wire(&self) -> (w: u16)
        requires
            self.wf(),
        ensures
            w == wire_word(self.is_read(), T::addr_spec(), self.payload()),
    {
        let addr: u8 = T::addr() & 0x0f;
        let rw: u16 = match self.rw {
            RwMode::Read => 1,
            RwMode::Write => 0,
        };
        let a: u16 = addr as u16;
        let d: u16 = self.data;
        let full: u8 = T::addr();
        assert(full & 0x0f == full % 16) by (bit_vector);
        assert(rw <= 1 && a <= 15 && d <= 0x7ff ==> ((rw << 15) | (a << 11) | d) == rw * 0x8000
            + a * 0x800 + d) by (bit_vector);
        (rw << 15) | (a << 11) | d
    }
}

} // verus!
