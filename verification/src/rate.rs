use vstd::prelude::*;

verus! {

/// Scale of the exchange rate: a rate equal to this converts one for one.
pub const RATE_SCALE: u32 = 100;

/// Conversion failure: the product `amount * rate` cannot be represented in
/// the 128-bit width in which it is formed.
#[derive(Clone, Copy, Debug, PartialEq, Eq, Structural)]
pub struct Overflow;

/// Whether forming `amount * rate` exceeds the 128-bit width.
pub open spec fn convert_overflows(amount: u128, rate: u32) -> bool {
    amount * rate > u128::MAX
}

/// The converted amount: the truncated quotient of `amount * rate` by the
/// rate scale. The remainder is discarded, never carried forward.
pub open spec fn spec_convert(amount: u128, rate: u32) -> int {
    (amount * rate) / (RATE_SCALE as int)
}

/// Converts `amount` in tokens to out tokens at `rate` (scaled so that
/// `RATE_SCALE` is one for one): the exact floor of `amount * rate / 100`,
/// or `Overflow` if the product cannot be formed in 128 bits.
pub fn convert(amount: u128, rate: u32) -> (r: Result<u128, Overflow>)
    ensures
        r is Ok <==> !convert_overflows(amount, rate),
        r matches Ok(v) ==> v == spec_convert(amount, rate),
        r matches Err(e) ==> e == Overflow,
{
    match amount.checked_mul(rate as u128) {
        Some(product) => Ok(product / (RATE_SCALE as u128)),
        None => Err(Overflow),
    }
}

} // verus!
