//! A lockable vault of lamports.
//!
//! The vault's own `balance` mirrors the lamports moved in and out through
//! it. A locked vault takes no deposit and gives no withdrawal. Every
//! transfer moves the same amount out of one account and into the other, or
//! nothing at all.

use crate::address::Address;
use vstd::prelude::*;

verus! {

/// Why a vault operation was refused.
#[derive(Clone, Copy, Debug, PartialEq, Eq, Structural)]
pub enum VaultError {
    VaultLocked,
    Overflow,
    InsufficientBalance,
    InvalidAmount,
    InvalidAuthority,
    VaultNotActive,
}

/// The state of one vault.
#[derive(Clone, Copy, Debug, PartialEq, Eq)]
pub struct Vault {
    pub vault_authority: Address,
    pub locked: bool,
    pub balance: u64,
}

impl Vault {
    /// Whether the vault refuses transfers.
    pub fn is_locked(&self) -> (r: bool)
        ensures
            r == self.locked,
    {
        self.locked
    }

    /// Whether the vault accepts transfers.
    pub fn is_active(&self) -> (r: bool)
        ensures
            r == !self.locked,
    {
        !self.locked
    }
}

/// The accounts of a deposit.
#[derive(Clone, Copy, Debug, PartialEq, Eq)]
pub struct Deposit {
    pub user: Address,
    pub vault: Address,
}

/// The accounts of a withdrawal.
#[derive(Clone, Copy, Debug, PartialEq, Eq)]
pub struct Withdraw {
    pub vault_authority: Address,
    pub vault: Address,
}

/// The accounts of a lock toggle.
#[derive(Clone, Copy, Debug, PartialEq, Eq)]
pub struct ToggleLock {
    pub vault: Address,
    pub vault_authority: Address,
}

/// Tells that `amount` lamports went from `user` into `vault`.
#[derive(Clone, Copy, Debug, PartialEq, Eq)]
pub struct DepositEvent {
    pub amount: u64,
    pub user: Address,
    pub vault: Address,
}

/// Tells that `amount` lamports went from `vault` to its authority.
#[derive(Clone, Copy, Debug, PartialEq, Eq)]
pub struct WithdrawEvent {
    pub vault: Address,
    pub amount: u64,
    pub vault_authority: Address,
}

/// Tells that the lock of `vault` is now `locked`.
#[derive(Clone, Copy, Debug, PartialEq, Eq)]
pub struct ToggleLockEvent {
    pub vault: Address,
    pub vault_authority: Address,
    pub locked: bool,
}

/// Why a deposit of `amount` is refused, if it is. The checks run in this
/// order: lock, amount, the user's funds, room in the vault's account, room
/// in the vault's balance.
pub open spec fn deposit_refusal(vault: Vault, vault_lamports: u64, user_lamports: u64, amount: u64)
    -> Option<VaultError> {
    if vault.locked {
        Some(VaultError::VaultLocked)
    } else if amount == 0 {
        Some(VaultError::InvalidAmount)
    } else if user_lamports < amount {
        Some(VaultError::InsufficientBalance)
    } else if vault_lamports + amount > u64::MAX || vault.balance + amount > u64::MAX {
        Some(VaultError::Overflow)
    } else {
        None
    }
}

/// Moves `amount` lamports from the user's account into the vault's.
pub fn deposit(
    vault: &mut Vault,
    vault_lamports: &mut u64,
    user_lamports: &mut u64,
    ctx: &Deposit,
    amount: u64,
) -> (r: Result<DepositEvent, VaultError>)
    ensures
        match deposit_refusal(*old(vault), *old(vault_lamports), *old(user_lamports), amount) {
            Some(e) => r == Err::<DepositEvent, VaultError>(e) && *final(vault) == *old(vault)
                && *final(vault_lamports) == *old(vault_lamports) && *final(user_lamports)
                == *old(user_lamports),
            None => r == Ok::<DepositEvent, VaultError>(
                DepositEvent { amount, user: ctx.user, vault: ctx.vault },
            ) && *final(user_lamports) == *old(user_lamports) - amount && *final(vault_lamports)
                == *old(vault_lamports) + amount && *final(vault) == (Vault {
                balance: (old(vault).balance + amount) as u64,
                ..*old(vault)
            }),
        },
{
    if vault.is_locked() {
        return Err(VaultError::VaultLocked);
    }
    if amount == 0 {
        return Err(VaultError::InvalidAmount);
    }
    if *user_lamports < amount {
        return Err(VaultError::InsufficientBalance);
    }
    let received = match vault_lamports.checked_add(amount) {
        Some(n) => n,
        None => {
            return Err(VaultError::Overflow);
        },
    };
    let balance = match vault.balance.checked_add(amount) {
        Some(n) => n,
        None => {
            return Err(VaultError::Overflow);
        },
    };
    *user_lamports = *user_lamports - amount;
    *vault_lamports = received;
    vault.balance = balance;
    Ok(DepositEvent { amount, user: ctx.user, vault: ctx.vault })
}

/// Why a withdrawal of `amount` is refused, if it is. The checks run in this
/// order: authority, lock, amount, the vault's balance, the vault's account,
/// room in the authority's account.
pub open spec fn withdraw_refusal(
    vault: Vault,
    vault_lamports: u64,
    authority_lamports: u64,
    authority: Seq<u8>,
    amount: u64,
) -> Option<VaultError> {
    if vault.vault_authority@ != authority {
        Some(VaultError::InvalidAuthority)
    } else if vault.locked {
        Some(VaultError::VaultLocked)
    } else if amount == 0 {
        Some(VaultError::InvalidAmount)
    } else if vault.balance < amount {
        Some(VaultError::InsufficientBalance)
    } else if vault_lamports < amount || authority_lamports + amount > u64::MAX {
        Some(VaultError::Overflow)
    } else {
        None
    }
}

/// Moves `amount` lamports from the vault's account to its authority's.
pub fn withdraw(
    vault: &mut Vault,
    vault_lamports: &mut u64,
    authority_lamports: &mut u64,
    ctx: &Withdraw,
    amount: u64,
) -> (r: Result<WithdrawEvent, VaultError>)
    ensures
        match withdraw_refusal(
            *old(vault),
            *old(vault_lamports),
            *old(authority_lamports),
            ctx.vault_authority@,
            amount,
        ) {
            Some(e) => r == Err::<WithdrawEvent, VaultError>(e) && *final(vault) == *old(vault)
                && *final(vault_lamports) == *old(vault_lamports) && *final(authority_lamports)
                == *old(authority_lamports),
            None => r == Ok::<WithdrawEvent, VaultError>(
                WithdrawEvent { vault: ctx.vault, amount, vault_authority: ctx.vault_authority },
            ) && *final(vault_lamports) == *old(vault_lamports) - amount
                && *final(authority_lamports) == *old(authority_lamports) + amount
                && *final(vault) == (Vault {
                balance: (old(vault).balance - amount) as u64,
                ..*old(vault)
            }),
        },
{
    if !vault.vault_authority.same(&ctx.vault_authority) {
        return Err(VaultError::InvalidAuthority);
    }
    if vault.is_locked() {
        return Err(VaultError::VaultLocked);
    }
    if amount == 0 {
        return Err(VaultError::InvalidAmount);
    }
    if vault.balance < amount {
        return Err(VaultError::InsufficientBalance);
    }
    let left = match vault_lamports.checked_sub(amount) {
        Some(n) => n,
        None => {
            return Err(VaultError::Overflow);
        },
    };
    let received = match authority_lamports.checked_add(amount) {
        Some(n) => n,
        None => {
            return Err(VaultError::Overflow);
        },
    };
    *vault_lamports = left;
    *authority_lamports = received;
    vault.balance = vault.balance - amount;
    Ok(WithdrawEvent { vault: ctx.vault, amount, vault_authority: ctx.vault_authority })
}

/// Locks an open vault and opens a locked one. Only the vault's authority
/// may.
pub fn toggle_lock(vault: &mut Vault, ctx: &ToggleLock) -> (r: Result<ToggleLockEvent, VaultError>)
    ensures
        if old(vault).vault_authority@ == ctx.vault_authority@ {
            r == Ok::<ToggleLockEvent, VaultError>(
                ToggleLockEvent {
                    vault: ctx.vault,
                    vault_authority: ctx.vault_authority,
                    locked: !old(vault).locked,
                },
            ) && *final(vault) == (Vault { locked: !old(vault).locked, ..*old(vault) })
        } else {
            r == Err::<ToggleLockEvent, VaultError>(VaultError::InvalidAuthority) && *final(vault)
                == *old(vault)
        },
{
    if !vault.vault_authority.same(&ctx.vault_authority) {
        return Err(VaultError::InvalidAuthority);
    }
    vault.locked = !vault.locked;
    Ok(
        ToggleLockEvent {
            vault: ctx.vault,
            vault_authority: ctx.vault_authority,
            locked: vault.locked,
        },
    )
}

/// A locked vault refuses every deposit and every withdrawal by its
/// authority.
pub proof fn law_locked_vault_is_closed(
    vault: Vault,
    vault_lamports: u64,
    other_lamports: u64,
    amount: u64,
)
    requires
        vault.locked,
    ensures
        deposit_refusal(vault, vault_lamports, other_lamports, amount) == Some(
            VaultError::VaultLocked,
        ),
        withdraw_refusal(vault, vault_lamports, other_lamports, vault.vault_authority@, amount)
            == Some(VaultError::VaultLocked),
{
}

/// No withdrawal takes more than the vault's balance.
pub proof fn law_no_overdraw(
    vault: Vault,
    vault_lamports: u64,
    authority_lamports: u64,
    authority: Seq<u8>,
    amount: u64,
)
    requires
        withdraw_refusal(vault, vault_lamports, authority_lamports, authority, amount) is None,
    ensures
        0 < amount <= vault.balance,
        amount <= vault_lamports,
{
}

} // verus!
