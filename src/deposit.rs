//! Deposit: fund an empty per-owner vault from the owner's own balance.
use crate::account::{AccountState, LamportTransfer};
use crate::address::{derive_vault_address, found_address, le_u64, system_program_id, system_program_key, vault_seeds, Key};
use crate::error::ProtocolError;
use vstd::prelude::*;

verus! {

/// The outcome of checking the accounts of a deposit: owner, vault and the
/// system program, in that order.
pub open spec fn deposit_accounts_check(accounts: Seq<AccountState>, program: Seq<u8>) -> Result<(), ProtocolError> {
    if accounts.len() != 3 {
        Err(ProtocolError::NotEnoughAccountKeys)
    } else if !accounts[0].is_signer {
        Err(ProtocolError::MissingSigner)
    } else if accounts[1].owner@ != system_program_key() {
        Err(ProtocolError::WrongAccountOwner)
    } else if accounts[1].lamports != 0 {
        Err(ProtocolError::VaultNotEmpty)
    } else if !(found_address(vault_seeds(accounts[0].key@), program) matches Some((k, _)) && k
        == accounts[1].key@) {
        Err(ProtocolError::AddressDerivationMismatch)
    } else {
        Ok(())
    }
}

/// The outcome of decoding deposit data: exactly eight little-endian bytes
/// of a nonzero amount.
pub open spec fn deposit_data_check(data: Seq<u8>) -> Result<u64, ProtocolError> {
    if data.len() != 8 {
        Err(ProtocolError::InvalidInstructionData)
    } else if le_u64(data) == 0 {
        Err(ProtocolError::ZeroOrInvalidAmount)
    } else {
        Ok(le_u64(data))
    }
}

/// The outcome of checking a whole deposit: accounts, then data, then the
/// amount against the existence minimum `min_balance`.
pub open spec fn deposit_check(data: Seq<u8>, accounts: Seq<AccountState>, program: Seq<u8>, min_balance: u64) -> Result<u64, ProtocolError> {
    match deposit_accounts_check(accounts, program) {
        Err(e) => Err(e),
        Ok(_) => match deposit_data_check(data) {
            Err(e) => Err(e),
            Ok(amount) => if amount <= min_balance {
                Err(ProtocolError::BelowMinimumExistenceBalance)
            } else {
                Ok(amount)
            },
        },
    }
}

/// The checked accounts of a deposit.
pub struct DepositAccounts {
    pub owner: AccountState,
    pub vault: AccountState,
}

impl DepositAccounts {
    /// Checks owner, vault and system program accounts for a deposit to the
    /// vault that `program_id` derives for the owner.
    pub fn try_from(accounts: &[AccountState], program_id: &Key) -> (r: Result<DepositAccounts, ProtocolError>)
        ensures
            match r {
                Ok(d) => deposit_accounts_check(accounts@, program_id@) is Ok && d.owner == accounts@[0]
                    && d.vault == accounts@[1],
                Err(e) => deposit_accounts_check(accounts@, program_id@) == Err::<(), ProtocolError>(e),
            },
    {
        if accounts.len() != 3 {
            return Err(ProtocolError::NotEnoughAccountKeys);
        }
        let owner = accounts[0];
        let vault = accounts[1];
        if !owner.is_signer {
            return Err(ProtocolError::MissingSigner);
        }
        if !vault.owner.same_as(&system_program_id()) {
            return Err(ProtocolError::WrongAccountOwner);
        }
        if vault.lamports != 0 {
            return Err(ProtocolError::VaultNotEmpty);
        }
        match derive_vault_address(&owner.key, program_id) {
            Some((k, _)) => {
                if !k.same_as(&vault.key) {
                    return Err(ProtocolError::AddressDerivationMismatch);
                }
            },
            None => {
                return Err(ProtocolError::AddressDerivationMismatch);
            },
        }
        Ok(DepositAccounts { owner, vault })
    }
}

/// The decoded data of a deposit.
pub struct DepositInstructionData {
    pub amount: u64,
}

impl DepositInstructionData {
    /// Decodes the amount: eight little-endian bytes, not zero.
    pub fn try_from(data: &[u8]) -> (r: Result<DepositInstructionData, ProtocolError>)
        ensures
            match r {
                Ok(d) => deposit_data_check(data@) == Ok::<u64, ProtocolError>(d.amount),
                Err(e) => deposit_data_check(data@) == Err::<u64, ProtocolError>(e),
            },
    {
        if data.len() != 8 {
            return Err(ProtocolError::InvalidInstructionData);
        }
        let amount: u64 = (data[0] as u64) | ((data[1] as u64) << 8u64) | ((data[2] as u64)
            << 16u64) | ((data[3] as u64) << 24u64) | ((data[4] as u64) << 32u64) | ((
        data[5] as u64) << 40u64) | ((data[6] as u64) << 48u64) | ((data[7] as u64) << 56u64);
        if amount == 0 {
            return Err(ProtocolError::ZeroOrInvalidAmount);
        }
        Ok(DepositInstructionData { amount })
    }
}

/// A checked deposit.
pub struct Deposit {
    pub accounts: DepositAccounts,
    pub instruction_data: DepositInstructionData,
}

impl Deposit {
    /// Checks accounts and data of a deposit; `min_balance` is the least
    /// balance an account must hold to exist.
    pub fn try_from(data: &[u8], accounts: &[AccountState], program_id: &Key, min_balance: u64) -> (r: Result<Deposit, ProtocolError>)
        ensures
            match r {
                Ok(d) => deposit_check(data@, accounts@, program_id@, min_balance) == Ok::<u64, ProtocolError>(d.instruction_data.amount)
                    && d.accounts.owner == accounts@[0] && d.accounts.vault == accounts@[1],
                Err(e) => deposit_check(data@, accounts@, program_id@, min_balance) == Err::<u64, ProtocolError>(e),
            },
    {
        let accounts = DepositAccounts::try_from(accounts, program_id)?;
        let instruction_data = DepositInstructionData::try_from(data)?;
        if instruction_data.amount <= min_balance {
            return Err(ProtocolError::BelowMinimumExistenceBalance);
        }
        Ok(Deposit { accounts, instruction_data })
    }

    /// The transfer a deposit makes: the amount, from the owner, who signs,
    /// to the vault.
    pub fn process(&self) -> (r: LamportTransfer)
        ensures
            r.from == self.accounts.owner.key,
            r.to == self.accounts.vault.key,
            r.lamports == self.instruction_data.amount,
            r.signer is None,
    {
        LamportTransfer {
            from: self.accounts.owner.key,
            to: self.accounts.vault.key,
            lamports: self.instruction_data.amount,
            signer: None,
        }
    }
}

/// A deposit is refused when the vault already holds lamports, when the
/// amount does not exceed the existence minimum, when the caller does not
/// sign, and when the vault is not the one derived for the signing owner.
pub proof fn lemma_deposit_rejections(data: Seq<u8>, accounts: Seq<AccountState>, program: Seq<u8>, min_balance: u64)
    ensures
        accounts.len() == 3 && accounts[1].lamports > 0 ==> deposit_check(data, accounts, program, min_balance) is Err,
        data.len() == 8 && le_u64(data) <= min_balance ==> deposit_check(data, accounts, program, min_balance) is Err,
        accounts.len() == 3 && !accounts[0].is_signer ==> deposit_check(data, accounts, program, min_balance) is Err,
        accounts.len() == 3 && !(found_address(vault_seeds(accounts[0].key@), program) matches Some((k, _)) && k == accounts[1].key@)
            ==> deposit_check(data, accounts, program, min_balance) is Err,
{
}

} // verus!
