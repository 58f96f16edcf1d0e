use vstd::prelude::*;
use crate::errors::IDOProgramErrors;
use crate::events::WithdrawTokenEvent;
use crate::pubkey::Pubkey;

verus! {

/// Moves `amount` lamports from the sale account (which holds
/// `ido_lamports` and must keep its rent-exempt minimum `rent_balance`) to
/// the operator wallet; returns the event to emit (the rent and the clock
/// are read by the caller).
pub fn withdraw_native_token(
    ido_lamports: &mut u64,
    rent_balance: u64,
    operator_wallet_lamports: &mut u64,
    operator_wallet: Pubkey,
    amount: u64,
    now_ts: i64,
) -> (r: Result<WithdrawTokenEvent, IDOProgramErrors>)
    requires
        rent_balance <= *old(ido_lamports),
        *old(ido_lamports) - rent_balance >= amount ==> *old(operator_wallet_lamports) + amount <= u64::MAX,
    ensures
        r is Err <==> *old(ido_lamports) - rent_balance < amount,
        r is Err ==> r->Err_0 == IDOProgramErrors::InsufficientAmount && *final(ido_lamports) == *old(ido_lamports)
            && *final(operator_wallet_lamports) == *old(operator_wallet_lamports),
        r is Ok ==> *final(ido_lamports) >= rent_balance,
        r is Ok ==> *final(ido_lamports) == *old(ido_lamports) - amount && *final(operator_wallet_lamports) == *old(operator_wallet_lamports) + amount && r->Ok_0 == (WithdrawTokenEvent {
            amount: amount,
            address: operator_wallet,
            timestamp: now_ts,
        }),
{
    let withdraw_amount = *ido_lamports - rent_balance;
    if withdraw_amount < amount {
        return Err(IDOProgramErrors::InsufficientAmount);
    }
    *ido_lamports = *ido_lamports - amount;
    *operator_wallet_lamports = *operator_wallet_lamports + amount;
    Ok(WithdrawTokenEvent { amount: amount, timestamp: now_ts, address: operator_wallet })
}

} // verus!
