use vstd::prelude::*;
use crate::error::VerityError;
use crate::state::{LedgerOp, TokenAccountInfo, UserVault};

verus! {

/// The first check a withdrawal violates, or `None` when it may proceed:
/// only the vault's owner may withdraw, the custody sub-account must be the
/// vault's and hold the unit, and the destination must be the owner's
/// account for the same asset.
pub open spec fn withdraw_error(
    vault: UserVault,
    vault_ata: TokenAccountInfo,
    owner_token_account: TokenAccountInfo,
    caller: u64,
) -> Option<VerityError> {
    if vault.owner != caller {
        Some(VerityError::UnauthorizedVaultOwner)
    } else if vault_ata.id != vault.vault_ata {
        Some(VerityError::VaultMismatch)
    } else if vault_ata.amount != 1 {
        Some(VerityError::InvalidTokenAmount)
    } else if owner_token_account.owner != caller {
        Some(VerityError::UnauthorizedVaultOwner)
    } else if owner_token_account.mint != vault.mint {
        Some(VerityError::VaultMismatch)
    } else {
        None
    }
}

/// The withdrawal's effect: return the unit to the owner's token account,
/// then release the custody sub-account with its deposit refunded to the
/// owner.
pub open spec fn withdraw_ops(
    vault_ata: TokenAccountInfo,
    owner_token_account: TokenAccountInfo,
    caller: u64,
) -> Seq<LedgerOp> {
    seq![
        LedgerOp::AssetTransfer {
            from_account: vault_ata.id,
            to_account: owner_token_account.id,
            amount: 1,
        },
        LedgerOp::CloseTokenAccount { account: vault_ata.id, deposit_to: caller },
    ]
}

/// Withdraw the asset from a vault back to its owner and destroy the
/// vault; the environment refunds the vault record's deposit to the owner.
/// Whether an active listing still references the vault is not checked
/// here.
pub fn handler(
    vault: &UserVault,
    vault_ata: &TokenAccountInfo,
    owner_token_account: &TokenAccountInfo,
    caller: u64,
) -> (r: Result<Vec<LedgerOp>, VerityError>)
    ensures
        r is Ok <==> withdraw_error(*vault, *vault_ata, *owner_token_account, caller) is None,
        r is Err ==> Some(r->Err_0) == withdraw_error(
            *vault, *vault_ata, *owner_token_account, caller,
        ),
        r matches Ok(ops) ==> ops@ == withdraw_ops(*vault_ata, *owner_token_account, caller),
{
    if vault.owner != caller {
        return Err(VerityError::UnauthorizedVaultOwner);
    }
    if vault_ata.id != vault.vault_ata {
        return Err(VerityError::VaultMismatch);
    }
    if vault_ata.amount != 1 {
        return Err(VerityError::InvalidTokenAmount);
    }
    if owner_token_account.owner != caller {
        return Err(VerityError::UnauthorizedVaultOwner);
    }
    if owner_token_account.mint != vault.mint {
        return Err(VerityError::VaultMismatch);
    }
    let mut ops: Vec<LedgerOp> = Vec::new();
    ops.push(LedgerOp::AssetTransfer {
        from_account: vault_ata.id,
        to_account: owner_token_account.id,
        amount: 1,
    });
    ops.push(LedgerOp::CloseTokenAccount { account: vault_ata.id, deposit_to: caller });
    proof {
        assert(ops@ =~= withdraw_ops(*vault_ata, *owner_token_account, caller));
    }
    Ok(ops)
}

} // verus!
