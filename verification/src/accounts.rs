//! Account provider boundary: the address book the engine signer is
//! checked against. Secrets and passwords are opaque words.

use vstd::prelude::*;
use crate::types::AccountError;
use crate::block::{mix2_spec, mix2};

verus! {

/// Password stored for `address`, if the provider knows it; the first
/// entry wins.
pub open spec fn stored_password_upto(entries: Seq<(u64, u64)>, address: u64, n: int) -> Option<u64>
    decreases n,
{
    if n <= 0 {
        None
    } else {
        match stored_password_upto(entries, address, n - 1) {
            Some(p) => Some(p),
            None => if entries[n - 1].0 == address {
                Some(entries[n - 1].1)
            } else {
                None
            },
        }
    }
}

/// Keeps accounts and checks passwords on signing requests.
#[derive(Debug)]
pub struct AccountProvider {
    entries: Vec<(u64, u64)>,
}

impl AccountProvider {
    /// The stored (address, password) pairs, in insertion order.
    pub closed spec fn accounts(self) -> Seq<(u64, u64)> {
        self.entries@
    }

    /// The password the provider would check `address` against.
    pub open spec fn stored_password(self, address: u64) -> Option<u64> {
        stored_password_upto(self.accounts(), address, self.accounts().len() as int)
    }

    /// An empty, in-memory provider.
    pub fn transient_provider() -> (r: AccountProvider)
        ensures
            r.accounts() == Seq::<(u64, u64)>::empty(),
    {
        let r = AccountProvider { entries: Vec::new() };
        proof {
            assert(r.accounts() =~= Seq::<(u64, u64)>::empty());
        }
        r
    }

    /// Derives the address of `secret` and stores it under `password`.
    pub fn insert_account(&mut self, secret: u64, password: u64) -> (r: Result<u64, AccountError>)
        ensures
            r == Result::<u64, AccountError>::Ok(mix2_spec(secret, 3)),
            final(self).accounts() == old(self).accounts().push((mix2_spec(secret, 3), password)),
    {
        let address = mix2(secret, 3);
        self.entries.push((address, password));
        Ok(address)
    }

    /// Signs a test message: succeeds exactly when the address is known
    /// and the password matches; a missing password stands for the empty
    /// one, the zero word.
    pub fn sign(&self, address: u64, password: Option<u64>) -> (r: Result<(), AccountError>)
        ensures
            match self.stored_password(address) {
                None => r == Result::<(), AccountError>::Err(AccountError::NotFound),
                Some(stored) => {
                    let given = match password {
                        Some(p) => p,
                        None => 0u64,
                    };
                    if given == stored {
                        r == Result::<(), AccountError>::Ok(())
                    } else {
                        r == Result::<(), AccountError>::Err(AccountError::InvalidPassword)
                    }
                },
            },
    {
        let given = match password {
            Some(p) => p,
            None => 0,
        };
        let mut i: usize = 0;
        while i < self.entries.len()
            invariant
                i <= self.entries@.len(),
                given == (match password {
                    Some(p) => p,
                    None => 0u64,
                }),
                stored_password_upto(self.entries@, address, i as int) == Option::<u64>::None,
            decreases self.entries@.len() - i,
        {
            if self.entries[i].0 == address {
                proof {
                    lemma_stored_password_found(self.entries@, address, i as int);
                }
                if given == self.entries[i].1 {
                    return Ok(());
                } else {
                    return Err(AccountError::InvalidPassword);
                }
            }
            i = i + 1;
        }
        Err(AccountError::NotFound)
    }
}

/// If the scan found no match before `i` and entry `i` matches, the stored
/// password is that entry's.
proof fn lemma_stored_password_found(entries: Seq<(u64, u64)>, address: u64, i: int)
    requires
        0 <= i < entries.len(),
        stored_password_upto(entries, address, i) == Option::<u64>::None,
        entries[i].0 == address,
    ensures
        stored_password_upto(entries, address, entries.len() as int) == Some(entries[i].1),
    decreases entries.len() - i,
{
    assert(stored_password_upto(entries, address, i + 1) == Some(entries[i].1));
    lemma_stored_password_stable(entries, address, i + 1, entries.len() as int);
}

/// Once a password is found at prefix length `m`, longer prefixes agree.
proof fn lemma_stored_password_stable(entries: Seq<(u64, u64)>, address: u64, m: int, n: int)
    requires
        0 <= m <= n <= entries.len(),
        stored_password_upto(entries, address, m) is Some,
    ensures
        stored_password_upto(entries, address, n) == stored_password_upto(entries, address, m),
    decreases n - m,
{
    if m < n {
        lemma_stored_password_stable(entries, address, m, n - 1);
    }
}

} // verus!
