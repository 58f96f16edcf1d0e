use vstd::prelude::*;
use crate::errors::IDOProgramErrors;
use crate::pubkey::Pubkey;

verus! {

/// The most keys that each role list of the registry holds.
pub const ROLE_LIMIT: usize = 3;

/// The program-wide registry: the wallet that receives withdrawals and the
/// role accounts of the admins and of the operators.
pub struct OnePad {
    pub bump: u8,
    pub pause: bool,
    pub operator_wallet: Pubkey,
    pub admin_role: Vec<Pubkey>,
    pub operator_role: Vec<Pubkey>,
}

/// `keys` without any occurrence of `k`, the others kept in their order.
pub open spec fn without_key(keys: Seq<Pubkey>, k: Pubkey) -> Seq<Pubkey>
    decreases keys.len(),
{
    if keys.len() == 0 {
        Seq::empty()
    } else {
        let rest = without_key(keys.drop_last(), k);
        if keys.last() == k {
            rest
        } else {
            rest.push(keys.last())
        }
    }
}

/// A role list is well formed: no key twice and at most `ROLE_LIMIT` keys.
pub open spec fn role_list_wf(keys: Seq<Pubkey>) -> bool {
    &&& keys.no_duplicates()
    &&& keys.len() <= ROLE_LIMIT
}

/// The outcome of adding `k` to a role list: the error, when there is one,
/// and the list afterwards.
pub open spec fn role_add_error(keys: Seq<Pubkey>, k: Pubkey, exists_err: IDOProgramErrors, limit_err: IDOProgramErrors) -> Option<IDOProgramErrors> {
    if keys.contains(k) {
        Some(exists_err)
    } else if keys.len() >= ROLE_LIMIT {
        Some(limit_err)
    } else {
        None
    }
}

pub proof fn lemma_without_key_properties(keys: Seq<Pubkey>, k: Pubkey)
    ensures
        !without_key(keys, k).contains(k),
        without_key(keys, k).len() <= keys.len(),
        forall|x: Pubkey| x != k ==> (#[trigger] without_key(keys, k).contains(x) <==> keys.contains(x)),
        keys.no_duplicates() ==> without_key(keys, k).no_duplicates(),
        !keys.contains(k) ==> without_key(keys, k) == keys,
    decreases keys.len(),
{
    if keys.len() > 0 {
        let init = keys.drop_last();
        lemma_without_key_properties(init, k);
        assert(keys =~= init.push(keys.last()));
        let rest = without_key(init, k);
        let w = without_key(keys, k);
        assert forall|x: Pubkey| x != k implies (#[trigger] w.contains(x) <==> keys.contains(x)) by {
            if keys.contains(x) {
                let j = choose|j: int| 0 <= j < keys.len() && keys[j] == x;
                if j < keys.len() - 1 {
                    assert(init[j] == x);
                    assert(rest.contains(x));
                    let m = choose|m: int| 0 <= m < rest.len() && rest[m] == x;
                    assert(w[m] == x);
                } else {
                    assert(w[w.len() - 1] == x);
                }
            }
            if w.contains(x) {
                let m = choose|m: int| 0 <= m < w.len() && w[m] == x;
                if m < rest.len() {
                    assert(rest[m] == x);
                    assert(rest.contains(x));
                    let j = choose|j: int| 0 <= j < init.len() && init[j] == x;
                    assert(keys[j] == x);
                } else {
                    assert(keys[keys.len() - 1] == x);
                }
            }
        }
        if keys.no_duplicates() {
            assert(init.no_duplicates()) by {
                assert forall|a: int, b: int| 0 <= a < init.len() && 0 <= b < init.len() && a != b implies init[a]
                    != init[b] by {
                    assert(keys[a] == init[a] && keys[b] == init[b]);
                }
            }
            if keys.last() != k {
                assert(!init.contains(keys.last())) by {
                    if init.contains(keys.last()) {
                        let j = choose|j: int| 0 <= j < init.len() && init[j] == keys.last();
                        assert(keys[j] == keys[keys.len() - 1]);
                    }
                }
                assert(!without_key(init, k).contains(keys.last()));
                let w = without_key(init, k);
                assert forall|a: int, b: int|
                    0 <= a < w.push(keys.last()).len() && 0 <= b < w.push(keys.last()).len() && a != b implies w.push(
                    keys.last(),
                )[a] != w.push(keys.last())[b] by {
                    if a < w.len() && b < w.len() {
                    } else if a == w.len() {
                        assert(w.contains(w[b]));
                    } else {
                        assert(w.contains(w[a]));
                    }
                }
            }
        }
        if !keys.contains(k) {
            assert(!init.contains(k)) by {
                if init.contains(k) {
                    let j = choose|j: int| 0 <= j < init.len() && init[j] == k;
                    assert(keys[j] == k);
                }
            }
            assert(keys.last() != k) by {
                assert(keys[keys.len() - 1] == keys.last());
            }
        }
    }
}

/// Whether `keys` holds `k`.
fn contains_key(keys: &Vec<Pubkey>, k: &Pubkey) -> (r: bool)
    ensures
        r == keys@.contains(*k),
{
    let n = keys.len();
    for i in 0..n
        invariant
            n == keys@.len(),
            forall|j: int| 0 <= j < i ==> keys@[j] != *k,
    {
        if keys[i] == *k {
            assert(keys@[i as int] == *k);
            return true;
        }
    }
    false
}

/// `keys` without any occurrence of `k` (the effect of `retain(|x| x != k)`).
fn retain_other_keys(keys: &Vec<Pubkey>, k: &Pubkey) -> (r: Vec<Pubkey>)
    ensures
        r@ == without_key(keys@, *k),
{
    let mut out: Vec<Pubkey> = Vec::new();
    let n = keys.len();
    for i in 0..n
        invariant
            n == keys@.len(),
            out@ == without_key(keys@.take(i as int), *k),
    {
        assert(keys@.take(i + 1).drop_last() =~= keys@.take(i as int));
        if keys[i] != *k {
            out.push(keys[i]);
        }
    }
    assert(keys@.take(n as int) =~= keys@);
    out
}

impl OnePad {
    pub fn initialize(&mut self, admin_role_pda: &Pubkey, operator_wallet: &Pubkey, bump: u8) -> (r: Result<
        (),
        IDOProgramErrors,
    >)
        ensures
            r is Ok,
            final(self).bump == bump,
            final(self).pause == false,
            final(self).admin_role@ == old(self).admin_role@.push(*admin_role_pda),
            final(self).operator_wallet == *operator_wallet,
            final(self).operator_role == old(self).operator_role,
    {
        self.bump = bump;
        self.pause = false;
        self.admin_role.push(*admin_role_pda);
        self.operator_wallet = *operator_wallet;
        Ok(())
    }

    pub fn set_pause(&mut self, pause: bool)
        ensures
            *final(self) == (OnePad { pause: pause, ..*old(self) }),
    {
        self.pause = pause;
    }

    pub fn has_admin(&self, authority: Pubkey) -> (r: bool)
        ensures
            r == self.admin_role@.contains(authority),
    {
        contains_key(&self.admin_role, &authority)
    }

    /// Adds an admin role account: refused when it is already listed or
    /// when the list is full.
    pub fn set_admin(&mut self, authority: Pubkey) -> (r: Result<(), IDOProgramErrors>)
        ensures
            r is Err <==> role_add_error(old(self).admin_role@, authority, IDOProgramErrors::AdminAlreadyExist,
                IDOProgramErrors::AdminLimitReached) is Some,
            r is Err ==> r->Err_0 == role_add_error(old(self).admin_role@, authority,
                IDOProgramErrors::AdminAlreadyExist, IDOProgramErrors::AdminLimitReached)->Some_0
                && *final(self) == *old(self),
            r is Ok ==> final(self).admin_role@ == old(self).admin_role@.push(authority),
            (OnePad { admin_role: old(self).admin_role, ..*final(self) }) == *old(self),
    {
        if contains_key(&self.admin_role, &authority) {
            return Err(IDOProgramErrors::AdminAlreadyExist);
        }
        if self.admin_role.len() >= ROLE_LIMIT {
            return Err(IDOProgramErrors::AdminLimitReached);
        }
        self.admin_role.push(authority);
        Ok(())
    }

    /// Removes every occurrence of an admin role account, unless exactly one
    /// admin is listed.
    pub fn remove_admin(&mut self, authority: Pubkey) -> (r: Result<(), IDOProgramErrors>)
        ensures
            r is Err <==> old(self).admin_role@.len() == 1,
            r is Err ==> r->Err_0 == IDOProgramErrors::AdminLimitReached && *final(self) == *old(self),
            r is Ok ==> final(self).admin_role@ == without_key(old(self).admin_role@, authority),
            (OnePad { admin_role: old(self).admin_role, ..*final(self) }) == *old(self),
    {
        if self.admin_role.len() == 1 {
            return Err(IDOProgramErrors::AdminLimitReached);
        }
        self.admin_role = retain_other_keys(&self.admin_role, &authority);
        Ok(())
    }

    pub fn change_operator_wallet(&mut self, new_operator_wallet: Pubkey) -> (r: Result<(), IDOProgramErrors>)
        ensures
            r is Ok,
            *final(self) == (OnePad { operator_wallet: new_operator_wallet, ..*old(self) }),
    {
        self.operator_wallet = new_operator_wallet;
        Ok(())
    }

    /// Adds an operator role account: refused when it is already listed or
    /// when the list is full.
    pub fn set_operator(&mut self, operator: Pubkey) -> (r: Result<(), IDOProgramErrors>)
        ensures
            r is Err <==> role_add_error(old(self).operator_role@, operator, IDOProgramErrors::OperatorAlreadyExist,
                IDOProgramErrors::OperatorLimitReached) is Some,
            r is Err ==> r->Err_0 == role_add_error(old(self).operator_role@, operator,
                IDOProgramErrors::OperatorAlreadyExist, IDOProgramErrors::OperatorLimitReached)->Some_0
                && *final(self) == *old(self),
            r is Ok ==> final(self).operator_role@ == old(self).operator_role@.push(operator),
            (OnePad { operator_role: old(self).operator_role, ..*final(self) }) == *old(self),
    {
        if contains_key(&self.operator_role, &operator) {
            return Err(IDOProgramErrors::OperatorAlreadyExist);
        }
        if self.operator_role.len() >= ROLE_LIMIT {
            return Err(IDOProgramErrors::OperatorLimitReached);
        }
        self.operator_role.push(operator);
        Ok(())
    }

    /// Removes every occurrence of an operator role account, unless exactly
    /// one operator is listed.
    pub fn remove_operator(&mut self, operator: Pubkey) -> (r: Result<(), IDOProgramErrors>)
        ensures
            r is Err <==> old(self).operator_role@.len() == 1,
            r is Err ==> r->Err_0 == IDOProgramErrors::OperatorLimitReached && *final(self) == *old(self),
            r is Ok ==> final(self).operator_role@ == without_key(old(self).operator_role@, operator),
            (OnePad { operator_role: old(self).operator_role, ..*final(self) }) == *old(self),
    {
        if self.operator_role.len() == 1 {
            return Err(IDOProgramErrors::OperatorLimitReached);
        }
        self.operator_role = retain_other_keys(&self.operator_role, &operator);
        Ok(())
    }

    pub fn has_operator(&self, operator: Pubkey) -> (r: bool)
        ensures
            r == self.operator_role@.contains(operator),
    {
        contains_key(&self.operator_role, &operator)
    }
}

} // verus!
