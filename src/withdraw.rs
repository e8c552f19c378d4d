//! Withdraw: empty the owner's vault back to the owner.
use crate::account::{lamports_after, AccountState, LamportTransfer};
use crate::address::{found_address, system_program_id, system_program_key, vault_bump, vault_seeds, vault_signer, with_bump, DerivedSigner, Key};
use crate::error::ProtocolError;
use vstd::prelude::*;

verus! {

/// The outcome of checking the accounts of a withdrawal: owner, vault and
/// the system program, in that order.
pub open spec fn withdraw_accounts_check(accounts: Seq<AccountState>, program: Seq<u8>) -> Result<(), ProtocolError> {
    if accounts.len() != 3 {
        Err(ProtocolError::NotEnoughAccountKeys)
    } else if !accounts[0].is_signer {
        Err(ProtocolError::MissingSigner)
    } else if accounts[1].owner@ != system_program_key() {
        Err(ProtocolError::WrongAccountOwner)
    } else if accounts[1].lamports == 0 {
        Err(ProtocolError::VaultEmpty)
    } else if !(found_address(vault_seeds(accounts[0].key@), program) matches Some((k, _)) && k
        == accounts[1].key@) {
        Err(ProtocolError::AddressDerivationMismatch)
    } else {
        Ok(())
    }
}

/// The checked accounts of a withdrawal, with the capability to sign for
/// the vault.
pub struct WithdrawAccounts {
    pub owner: AccountState,
    pub vault: AccountState,
    pub signer: DerivedSigner,
}

impl WithdrawAccounts {
    /// The signer signs for the vault, derived from the owner's key.
    pub open spec fn wf(&self) -> bool {
        &&& self.signer.wf()
        &&& self.signer.spec_address() == self.vault.key@
        &&& self.signer.spec_seeds() == with_bump(
            vault_seeds(self.owner.key@),
            vault_bump(self.owner.key@, self.signer.spec_program()),
        )
    }

    /// Checks owner, vault and system program accounts for a withdrawal from
    /// the vault that `program_id` derives for the owner.
    pub fn try_from(accounts: &[AccountState], program_id: &Key) -> (r: Result<WithdrawAccounts, ProtocolError>)
        ensures
            match r {
                Ok(w) => withdraw_accounts_check(accounts@, program_id@) is Ok && w.owner == accounts@[0]
                    && w.vault == accounts@[1] && w.wf(),
                Err(e) => withdraw_accounts_check(accounts@, program_id@) == Err::<(), ProtocolError>(e),
            },
    {
        if accounts.len() != 3 {
            return Err(ProtocolError::NotEnoughAccountKeys);
        }
        let owner = accounts[0];
        let vault = accounts[1];
        if !owner.is_signer {
            return Err(ProtocolError::MissingSigner);
        }
        if !vault.owner.same_as(&system_program_id()) {
            return Err(ProtocolError::WrongAccountOwner);
        }
        if vault.lamports == 0 {
            return Err(ProtocolError::VaultEmpty);
        }
        match vault_signer(&vault.key, &owner.key, program_id) {
            Some(signer) => Ok(WithdrawAccounts { owner, vault, signer }),
            None => Err(ProtocolError::AddressDerivationMismatch),
        }
    }
}

/// A checked withdrawal.
pub struct Withdraw {
    pub accounts: WithdrawAccounts,
}

impl Withdraw {
    /// Checks the accounts of a withdrawal.
    pub fn try_from(accounts: &[AccountState], program_id: &Key) -> (r: Result<Withdraw, ProtocolError>)
        ensures
            match r {
                Ok(w) => withdraw_accounts_check(accounts@, program_id@) is Ok && w.accounts.owner == accounts@[0]
                    && w.accounts.vault == accounts@[1] && w.accounts.wf(),
                Err(e) => withdraw_accounts_check(accounts@, program_id@) == Err::<(), ProtocolError>(e),
            },
    {
        let accounts = WithdrawAccounts::try_from(accounts, program_id)?;
        Ok(Withdraw { accounts })
    }

    /// The transfer a withdrawal makes: the vault's whole balance, from the
    /// vault, which signs through its derivation seeds, to the owner.
    pub fn process(&self) -> (r: LamportTransfer)
        requires
            self.accounts.wf(),
        ensures
            r.from == self.accounts.vault.key,
            r.to == self.accounts.owner.key,
            r.lamports == self.accounts.vault.lamports,
            r.signer matches Some(s) && s.wf() && s.spec_address() == self.accounts.vault.key@
                && s.spec_seeds() == self.accounts.signer.spec_seeds(),
    {
        LamportTransfer {
            from: self.accounts.vault.key,
            to: self.accounts.owner.key,
            lamports: self.accounts.vault.lamports,
            signer: Some(self.accounts.signer.duplicate()),
        }
    }
}

/// A withdrawal from a vault that holds nothing is refused.
pub proof fn lemma_empty_vault_refuses_withdraw(accounts: Seq<AccountState>, program: Seq<u8>)
    requires
        accounts.len() == 3,
        accounts[1].lamports == 0,
    ensures
        withdraw_accounts_check(accounts, program) is Err,
{
}

/// A withdrawal leaves the vault at exactly zero and credits the owner with
/// the vault's whole prior balance.
pub proof fn lemma_withdraw_empties_vault(owner: AccountState, vault: AccountState, t: LamportTransfer)
    requires
        t.from == vault.key,
        t.to == owner.key,
        t.lamports == vault.lamports,
        owner.key@ != vault.key@,
    ensures
        lamports_after(vault.key@, vault.lamports as int, t) == 0,
        lamports_after(owner.key@, owner.lamports as int, t) == owner.lamports + vault.lamports,
{
}

} // verus!
