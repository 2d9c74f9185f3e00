use vstd::prelude::*;

verus! {

/// Address of the conversion register.
pub const CONVERSION: u8 = 0x00;

/// Address of the configuration register.
pub const CONFIG: u8 = 0x01;

/// Address of the low threshold register.
pub const LOW_TH: u8 = 0x02;

/// Address of the high threshold register.
pub const HIGH_TH: u8 = 0x03;

/// Errors of a register access.
#[derive(Debug, PartialEq, Eq)]
pub enum Error<E> {
    /// The bus transaction failed; carries the transport's error.
    I2C(E),
}

/// The big-endian value of two bytes.
pub open spec fn be_value(hi: u8, lo: u8) -> int {
    hi as int * 256 + lo as int
}

/// The three bytes of a register write: the register address, then the value big-endian.
pub open spec fn write_bytes(register: u8, data: u16) -> Seq<u8> {
    seq![register, (data / 256) as u8, (data % 256) as u8]
}

/// Bytes that a write of `data` to `register` puts on the bus.
pub fn write_payload(register: u8, data: u16) -> (r: [u8; 3])
    ensures
        r@ == write_bytes(register, data),
        be_value(r@[1], r@[2]) == data as int,
{
    let hi: u8 = (data / 256) as u8;
    let lo: u8 = (data % 256) as u8;
    let r = [register, hi, lo];
    assert(r@ =~= write_bytes(register, data));
    r
}

/// Outcome of a register write, given the outcome of the bus write that carried it.
pub fn write_register<E>(outcome: Result<(), E>) -> (r: Result<(), Error<E>>)
    ensures
        outcome is Ok <==> r is Ok,
        outcome is Err ==> r == Err::<(), Error<E>>(Error::I2C(outcome->Err_0)),
{
    match outcome {
        Ok(()) => Ok(()),
        Err(e) => Err(Error::I2C(e)),
    }
}

/// Value of a register read, given the outcome of the write-then-read
/// transaction and the two bytes it read back.
pub fn read_register<E>(outcome: Result<(), E>, data: [u8; 2]) -> (r: Result<u16, Error<E>>)
    ensures
        outcome is Ok <==> r is Ok,
        r is Ok ==> r->Ok_0 as int == be_value(data@[0], data@[1]),
        outcome is Err ==> r == Err::<u16, Error<E>>(Error::I2C(outcome->Err_0)),
{
    match outcome {
        Ok(()) => Ok(data[0] as u16 * 256 + data[1] as u16),
        Err(e) => Err(Error::I2C(e)),
    }
}

/// A value written to a register and read back is the value written.
pub proof fn lemma_write_then_read(register: u8, data: u16)
    ensures
        be_value(write_bytes(register, data)[1], write_bytes(register, data)[2]) == data as int,
{
}

} // verus!
