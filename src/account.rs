//! Accounts as the account store hands them over.
use vstd::prelude::*;
use crate::access::{AccessPrivileges, ALL_PRIVILEGE_BITS};

verus! {

/// A stored account.
#[derive(Clone, Debug)]
pub struct Account {
    pub id: i64,
    /// Unique without regard to case.
    pub login: String,
    /// The scrambled password: each byte of the plaintext inverted.
    pub password_hash: Vec<u8>,
    pub name: String,
    /// The access mask, as stored.
    pub access: i64,
    pub created_at: i64,
    pub modified_at: i64,
}

impl Account {
    /// The privileges of the account; undefined bits of the stored mask are dropped.
    pub fn access_privileges(&self) -> (r: AccessPrivileges)
        ensures
            r@ == (self.access as u64) & ALL_PRIVILEGE_BITS,
            r.wf(),
    {
        AccessPrivileges::from_bits_truncate(self.access as u64)
    }

    /// Whether the account has every privilege in `privilege`.
    pub fn has_privilege(&self, privilege: u64) -> (r: bool)
        ensures
            r == ((self.access as u64) & ALL_PRIVILEGE_BITS & privilege == privilege),
    {
        self.access_privileges().contains(privilege)
    }
}

/// The privileges that a session acts with: a guest's preset when it is not
/// logged in with an account or the account could not be read, the account's
/// own otherwise.
pub fn effective_access(account_id: Option<i64>, account: Option<&Account>) -> (r: AccessPrivileges)
    ensures
        r.wf(),
        account_id is None || account is None ==> r == AccessPrivileges::guest_preset(),
        account_id is Some ==> (account matches Some(a) ==> r@ == (a.access as u64) & ALL_PRIVILEGE_BITS),
{
    match (account_id, account) {
        (Some(_), Some(a)) => a.access_privileges(),
        _ => AccessPrivileges::guest(),
    }
}

} // verus!
