use vstd::prelude::*;
use crate::errors::IDOProgramErrors;
use crate::events::ChangeOperatorWalletEvent;
use crate::onepad::OnePad;
use crate::pubkey::Pubkey;

verus! {

/// Sets a new operator wallet, which must differ from the current one and
/// from the zero address; returns the event to emit (the clock is read by
/// the caller).
pub fn handle_change_operator_wallet(
    onepad_pda: &mut OnePad,
    authority: Pubkey,
    new_operator_wallet: Pubkey,
    now_ts: i64,
) -> (r: Result<ChangeOperatorWalletEvent, IDOProgramErrors>)
    ensures
        r is Err <==> (old(onepad_pda).operator_wallet == new_operator_wallet || new_operator_wallet.is_default()),
        r is Err ==> *final(onepad_pda) == *old(onepad_pda) && r->Err_0 == if old(onepad_pda).operator_wallet
            == new_operator_wallet {
            IDOProgramErrors::OperatorWalletSameAsNewWallet
        } else {
            IDOProgramErrors::AddressZero
        },
        r is Ok ==> *final(onepad_pda) == (OnePad { operator_wallet: new_operator_wallet, ..*old(onepad_pda) })
            && r->Ok_0 == (ChangeOperatorWalletEvent {
            admin: authority,
            operator_wallet: new_operator_wallet,
            time: now_ts,
        }),
{
    if onepad_pda.operator_wallet == new_operator_wallet {
        return Err(IDOProgramErrors::OperatorWalletSameAsNewWallet);
    }
    if new_operator_wallet == Pubkey::default() {
        return Err(IDOProgramErrors::AddressZero);
    }
    onepad_pda.change_operator_wallet(new_operator_wallet)?;
    Ok(ChangeOperatorWalletEvent { operator_wallet: new_operator_wallet, time: now_ts, admin: authority })
}

} // verus!
