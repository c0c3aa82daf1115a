//! Lock-registry double: a mock stream account stores the locked amount in
//! its first 8 bytes, little-endian.

use vstd::prelude::*;
use crate::types::ErrorCode;

verus! {

/// Locked amount reported for one stream.
#[derive(Clone, Copy, PartialEq, Eq, Structural, Debug)]
pub struct StreamLockInfo {
    pub locked_amount: u64,
}

/// Fixed lock amount reported by the registry double.
pub fn get_locked_amount() -> (r: StreamLockInfo)
    ensures
        r == (StreamLockInfo { locked_amount: 100_000u64 }),
{
    StreamLockInfo { locked_amount: 100_000 }
}

/// The unsigned 64-bit value stored little-endian in the first 8 bytes.
pub open spec fn spec_le_u64(data: Seq<u8>) -> int {
    data[0] + data[1] * 0x100 + data[2] * 0x1_0000 + data[3] * 0x100_0000 + data[4]
        * 0x1_0000_0000 + data[5] * 0x100_0000_0000 + data[6] * 0x1_0000_0000_0000 + data[7]
        * 0x100_0000_0000_0000
}

/// Read the locked amount from a mock stream account's raw data: the first
/// 8 bytes hold the amount, little-endian. Shorter data is rejected.
pub fn read_locked_stub(data: &Vec<u8>) -> (r: Result<u64, ErrorCode>)
    ensures
        data@.len() >= 8 ==> (r matches Ok(v) && v as int == spec_le_u64(data@)),
        data@.len() < 8 ==> r == Err::<u64, ErrorCode>(ErrorCode::MissingInvestorStreamflow),
{
    if data.len() < 8 {
        return Err(ErrorCode::MissingInvestorStreamflow);
    }
    let v: u64 = (data[0] as u64) + (data[1] as u64) * 0x100 + (data[2] as u64) * 0x1_0000 + (
    data[3] as u64) * 0x100_0000 + (data[4] as u64) * 0x1_0000_0000 + (data[5] as u64)
        * 0x100_0000_0000 + (data[6] as u64) * 0x1_0000_0000_0000 + (data[7] as u64)
        * 0x100_0000_0000_0000;
    Ok(v)
}

} // verus!
