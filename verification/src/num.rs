//! Chain ids cross the module boundary as signed numbers and are stored as unsigned ones.
use vstd::prelude::*;

verus! {

/// The signed number with the same 64 bits.
pub open spec fn signed(n: u64) -> i64 {
    if n <= i64::MAX {
        n as i64
    } else {
        (n - 0x1_0000_0000_0000_0000) as i64
    }
}

/// The unsigned number with the same 64 bits.
pub open spec fn unsigned(n: i64) -> u64 {
    if n >= 0 {
        n as u64
    } else {
        (n + 0x1_0000_0000_0000_0000) as u64
    }
}

/// The signed number with the same 64 bits.
pub fn to_signed(n: u64) -> (r: i64)
    ensures
        r == signed(n),
{
    if n <= i64::MAX as u64 {
        n as i64
    } else {
        -((u64::MAX - n) as i64) - 1
    }
}

/// The unsigned number with the same 64 bits.
pub fn to_unsigned(n: i64) -> (r: u64)
    ensures
        r == unsigned(n),
{
    if n >= 0 {
        n as u64
    } else {
        u64::MAX - (-(n + 1)) as u64
    }
}

/// No chain id is lost on the way across the boundary and back. One that fits both sides is the same
/// number on both; any other differs by the 64 bits' worth.
pub proof fn law_chain_ids_survive_the_boundary(n: u64, m: i64)
    ensures
        signed(n) == n || signed(n) == n - 0x1_0000_0000_0000_0000,
        n <= i64::MAX ==> signed(n) == n,
        unsigned(m) == m || unsigned(m) == m + 0x1_0000_0000_0000_0000,
        m >= 0 ==> unsigned(m) == m,
        unsigned(signed(n)) == n,
        signed(unsigned(m)) == m,
{
}

/// A chain id crosses the boundary as the number with the same 64 bits.
pub proof fn law_chain_ids_cross_as_stated(n: u64, m: i64)
    ensures
        call_ensures(to_signed, (n,), m) ==> m == signed(n),
        call_ensures(to_unsigned, (m,), n) ==> n == unsigned(m),
{
}

} // verus!
