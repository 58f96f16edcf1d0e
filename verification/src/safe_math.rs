use vstd::prelude::*;
use vstd::arithmetic::power::pow;
use anchor_lang::solana_program::program_error::ProgramError;
use solana_safe_math::SafeMath;

verus! {

#[verifier::external_type_specification]
#[verifier::external_body]
pub struct ExProgramError(ProgramError);

/// `SafeMath::safe_add` on `u64` (solana_safe_math): `checked_add`, with an
/// error exactly when the sum leaves the `u64` range.
#[verifier::external_body]
pub(crate) fn safe_add(a: u64, b: u64) -> (r: Result<u64, ProgramError>)
    ensures
        r is Ok <==> a + b <= u64::MAX,
        r is Ok ==> r->Ok_0 == a + b,
{
    a.safe_add(b)
}

/// `SafeMath::safe_sub` on `u64` (solana_safe_math): `checked_sub`, with an
/// error exactly when the difference is negative.
#[verifier::external_body]
pub(crate) fn safe_sub(a: u64, b: u64) -> (r: Result<u64, ProgramError>)
    ensures
        r is Ok <==> b <= a,
        r is Ok ==> r->Ok_0 == a - b,
{
    a.safe_sub(b)
}

/// `SafeMath::safe_mul` on `u64` (solana_safe_math): `checked_mul`, with an
/// error exactly when the product leaves the `u64` range.
#[verifier::external_body]
pub(crate) fn safe_mul(a: u64, b: u64) -> (r: Result<u64, ProgramError>)
    ensures
        r is Ok <==> a * b <= u64::MAX,
        r is Ok ==> r->Ok_0 == a * b,
{
    a.safe_mul(b)
}

/// `SafeMath::safe_div` on `u64` (solana_safe_math): `checked_div`, with an
/// error exactly when the divisor is zero.
#[verifier::external_body]
pub(crate) fn safe_div(a: u64, b: u64) -> (r: Result<u64, ProgramError>)
    ensures
        r is Ok <==> b != 0,
        r is Ok ==> r->Ok_0 == a / b,
{
    a.safe_div(b)
}

/// `SafeMath::safe_pow` on `u32` (solana_safe_math): `checked_pow`, with an
/// error exactly when the power leaves the `u32` range.
#[verifier::external_body]
pub(crate) fn safe_pow(base: u32, exp: u32) -> (r: Result<u32, ProgramError>)
    ensures
        r is Ok <==> pow(base as int, exp as nat) <= u32::MAX,
        r is Ok ==> r->Ok_0 == pow(base as int, exp as nat),
{
    base.safe_pow(exp)
}

} // verus!
