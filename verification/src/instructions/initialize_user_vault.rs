use vstd::prelude::*;
use crate::error::VerityError;
use crate::state::{LedgerOp, MintInfo, TokenAccountInfo, UserVault};

verus! {

/// The first check a vault creation violates, or `None` when it may
/// proceed: the funding token account must belong to the caller, be for the
/// asset, and hold exactly one unit, and the asset must be a unique
/// one-of-one token (0 decimals, supply 1).
pub open spec fn initialize_user_vault_error(
    owner: u64,
    mint: MintInfo,
    owner_token_account: TokenAccountInfo,
) -> Option<VerityError> {
    if owner_token_account.owner != owner {
        Some(VerityError::UnauthorizedVaultOwner)
    } else if owner_token_account.mint != mint.id {
        Some(VerityError::UnsupportedMint)
    } else if owner_token_account.amount != 1 {
        Some(VerityError::InvalidTokenAmount)
    } else if mint.decimals != 0 {
        Some(VerityError::UnsupportedMint)
    } else if mint.supply != 1 {
        Some(VerityError::UnsupportedMint)
    } else {
        None
    }
}

/// Create a user-owned vault for one asset and move the asset into its
/// custody sub-account. The vault belongs to the user, never to the
/// marketplace. On success the returned operation moves the single unit
/// from the owner's token account into the vault's.
pub fn handler(
    owner: u64,
    mint: &MintInfo,
    owner_token_account: &TokenAccountInfo,
    vault_ata: u64,
    bump: u8,
) -> (r: Result<(UserVault, LedgerOp), VerityError>)
    ensures
        r is Ok <==> initialize_user_vault_error(owner, *mint, *owner_token_account) is None,
        r is Err ==> Some(r->Err_0) == initialize_user_vault_error(
            owner, *mint, *owner_token_account,
        ),
        r matches Ok((vault, op)) ==> vault == (UserVault {
            owner,
            mint: mint.id,
            vault_ata,
            bump,
        }) && op == (LedgerOp::AssetTransfer {
            from_account: owner_token_account.id,
            to_account: vault_ata,
            amount: 1,
        }),
{
    if owner_token_account.owner != owner {
        return Err(VerityError::UnauthorizedVaultOwner);
    }
    if owner_token_account.mint != mint.id {
        return Err(VerityError::UnsupportedMint);
    }
    if owner_token_account.amount != 1 {
        return Err(VerityError::InvalidTokenAmount);
    }
    if mint.decimals != 0 {
        return Err(VerityError::UnsupportedMint);
    }
    if mint.supply != 1 {
        return Err(VerityError::UnsupportedMint);
    }
    let vault = UserVault { owner, mint: mint.id, vault_ata, bump };
    let op = LedgerOp::AssetTransfer {
        from_account: owner_token_account.id,
        to_account: vault_ata,
        amount: 1,
    };
    Ok((vault, op))
}

} // verus!
