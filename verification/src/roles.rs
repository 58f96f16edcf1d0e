use vstd::prelude::*;
use crate::errors::IDOProgramErrors;
use crate::pubkey::Pubkey;

verus! {

/// The role that a role account grants.
#[derive(PartialEq, Eq, Structural, Clone, Copy, Debug)]
pub enum AuthRole {
    Admin,
    Operator,
}

/// A role account: it grants `role` to the wallet `authority` while
/// `status` is set.
pub struct AuthorityRole {
    pub authority: Pubkey,
    pub role: AuthRole,
    pub status: bool,
    pub bump: u8,
}

impl AuthorityRole {
    /// Grants `role` to `authority` and activates the account.
    pub fn initialize(&mut self, authority: &Pubkey, bump: u8, role: AuthRole) -> (r: Result<(), IDOProgramErrors>)
        ensures
            r is Ok,
            *final(self) == (AuthorityRole { authority: *authority, role: role, status: true, bump: bump }),
    {
        self.authority = *authority;
        self.bump = bump;
        self.role = role;
        self.status = true;
        Ok(())
    }

    /// Whether the account grants `role` to `authority`.
    pub fn has_authority(&self, authority: Pubkey, role: AuthRole) -> (r: bool)
        ensures
            r == (self.authority == authority && self.role == role),
    {
        self.authority == authority && self.role == role
    }
}

/// The admin record of one sale: the admin wallet, the sale it belongs to,
/// and the bump of its address.
pub struct AdminAccount {
    pub authority: Pubkey,
    pub bump: u8,
    pub owner: Pubkey,
}

impl AdminAccount {
    pub fn _set_admin(&mut self, admin: &Pubkey) -> (r: Result<(), IDOProgramErrors>)
        ensures
            r is Ok,
            *final(self) == (AdminAccount { authority: *admin, ..*old(self) }),
    {
        self.authority = *admin;
        Ok(())
    }

    pub fn _is_admin(&self, admin: &Pubkey) -> (r: bool)
        ensures
            r == (self.authority == *admin),
    {
        self.authority == *admin
    }

    pub fn _init_admin_ido(&mut self, admin: &Pubkey, owner: &Pubkey, bump: &u8) -> (r: Result<(), IDOProgramErrors>)
        ensures
            r is Ok,
            *final(self) == (AdminAccount { authority: *admin, owner: *owner, bump: *bump }),
    {
        self.authority = *admin;
        self.owner = *owner;
        self.bump = *bump;
        Ok(())
    }
}

} // verus!
