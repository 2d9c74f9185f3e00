//! Driver core for the ADS1x1x family of analog-to-digital converters.
//!
//! The handle holds the driver state and decides, for every operation, which
//! bytes go on the bus and what the outcome of that transaction means; the
//! caller performs the transaction itself and hands its outcome back.
use vstd::prelude::*;

pub mod config;
pub mod conversion;
pub mod device;
pub mod register;

verus! {

} // verus!
