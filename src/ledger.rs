//! The asset ledger the vault acts on: assets with their supply and
//! authorities, and holding accounts with balance, owner, freeze state and
//! spending delegation. Accounts and assets are named by their position.
use vstd::prelude::*;
use crate::error::CustomErrorCode;
use crate::keys::{holds_key, Pubkey};

verus! {

/// An asset type.
#[derive(Clone, Copy, Debug)]
pub struct MintAccount {
    pub address: Pubkey,
    pub supply: u64,
    pub mint_authority: Option<Pubkey>,
    pub freeze_authority: Option<Pubkey>,
}

/// A holding account of one asset.
#[derive(Clone, Copy, Debug)]
pub struct TokenAccount {
    pub address: Pubkey,
    pub mint: Pubkey,
    pub owner: Pubkey,
    pub amount: u64,
    pub frozen: bool,
    pub delegate: Option<Pubkey>,
    pub delegated_amount: u64,
}

pub struct Ledger {
    pub mints: Vec<MintAccount>,
    pub accounts: Vec<TokenAccount>,
}

pub struct LedgerView {
    pub mints: Seq<MintAccount>,
    pub accounts: Seq<TokenAccount>,
}

/// Why `authority` may not spend `amount` from `acct`: it must be the
/// delegate within its allowance, or else the owner.
pub open spec fn spend_error(acct: TokenAccount, authority: Pubkey, amount: u64) -> Option<
    CustomErrorCode,
> {
    if acct.delegate == Some(authority) {
        if acct.delegated_amount < amount {
            Some(CustomErrorCode::InsufficientFunds)
        } else {
            None
        }
    } else if acct.owner != authority {
        Some(CustomErrorCode::OwnerMismatch)
    } else {
        None
    }
}

/// `acct` after `authority` spent `amount` from it: a delegate uses up its
/// allowance, and loses the delegation once it is spent.
pub open spec fn after_spend(acct: TokenAccount, authority: Pubkey, amount: u64) -> TokenAccount {
    if acct.delegate == Some(authority) {
        let left = (acct.delegated_amount - amount) as u64;
        TokenAccount {
            delegate: if left == 0 {
                None
            } else {
                acct.delegate
            },
            delegated_amount: left,
            ..acct
        }
    } else {
        acct
    }
}

impl LedgerView {
    pub open spec fn has_account(self, a: int) -> bool {
        0 <= a < self.accounts.len()
    }

    pub open spec fn has_mint(self, m: int) -> bool {
        0 <= m < self.mints.len()
    }

    pub open spec fn transfer_error(self, from: int, to: int, authority: Pubkey, amount: u64) -> Option<
        CustomErrorCode,
    > {
        let s = self.accounts[from];
        let d = self.accounts[to];
        if s.frozen || d.frozen {
            Some(CustomErrorCode::AccountFrozen)
        } else if s.amount < amount {
            Some(CustomErrorCode::InsufficientFunds)
        } else if s.mint != d.mint {
            Some(CustomErrorCode::MintMismatch)
        } else if spend_error(s, authority, amount).is_some() {
            spend_error(s, authority, amount)
        } else if from != to && d.amount + amount > u64::MAX {
            Some(CustomErrorCode::Overflow)
        } else {
            None
        }
    }

    /// Moves `amount` from `from` to `to`; a transfer to the same account
    /// changes nothing.
    pub open spec fn transfer(self, from: int, to: int, authority: Pubkey, amount: u64) -> LedgerView {
        let s = self.accounts[from];
        let d = self.accounts[to];
        if from == to {
            self
        } else {
            LedgerView {
                accounts: self.accounts.update(
                    from,
                    TokenAccount { amount: (s.amount - amount) as u64, ..after_spend(s, authority, amount) },
                ).update(to, TokenAccount { amount: (d.amount + amount) as u64, ..d }),
                ..self
            }
        }
    }

    pub open spec fn mint_to_error(self, m: int, to: int, authority: Pubkey, amount: u64) -> Option<
        CustomErrorCode,
    > {
        let mint = self.mints[m];
        let d = self.accounts[to];
        if d.frozen {
            Some(CustomErrorCode::AccountFrozen)
        } else if d.mint != mint.address {
            Some(CustomErrorCode::MintMismatch)
        } else if mint.mint_authority != Some(authority) {
            Some(CustomErrorCode::OwnerMismatch)
        } else if mint.supply + amount > u64::MAX || d.amount + amount > u64::MAX {
            Some(CustomErrorCode::Overflow)
        } else {
            None
        }
    }

    /// Issues `amount` new units of asset `m` into `to`.
    pub open spec fn mint_to(self, m: int, to: int, amount: u64) -> LedgerView {
        let mint = self.mints[m];
        let d = self.accounts[to];
        LedgerView {
            mints: self.mints.update(m, MintAccount { supply: (mint.supply + amount) as u64, ..mint }),
            accounts: self.accounts.update(to, TokenAccount { amount: (d.amount + amount) as u64, ..d }),
        }
    }

    pub open spec fn burn_error(self, from: int, m: int, authority: Pubkey, amount: u64) -> Option<
        CustomErrorCode,
    > {
        let mint = self.mints[m];
        let s = self.accounts[from];
        if s.frozen {
            Some(CustomErrorCode::AccountFrozen)
        } else if s.mint != mint.address {
            Some(CustomErrorCode::MintMismatch)
        } else if s.amount < amount {
            Some(CustomErrorCode::InsufficientFunds)
        } else if spend_error(s, authority, amount).is_some() {
            spend_error(s, authority, amount)
        } else if mint.supply < amount {
            Some(CustomErrorCode::Overflow)
        } else {
            None
        }
    }

    /// Destroys `amount` units of asset `m` held in `from`.
    pub open spec fn burn(self, from: int, m: int, authority: Pubkey, amount: u64) -> LedgerView {
        let mint = self.mints[m];
        let s = self.accounts[from];
        LedgerView {
            mints: self.mints.update(m, MintAccount { supply: (mint.supply - amount) as u64, ..mint }),
            accounts: self.accounts.update(
                from,
                TokenAccount { amount: (s.amount - amount) as u64, ..after_spend(s, authority, amount) },
            ),
        }
    }

    pub open spec fn approve_error(self, a: int, authority: Pubkey) -> Option<CustomErrorCode> {
        let acct = self.accounts[a];
        if acct.frozen {
            Some(CustomErrorCode::AccountFrozen)
        } else if acct.owner != authority {
            Some(CustomErrorCode::OwnerMismatch)
        } else {
            None
        }
    }

    /// Lets `delegate` spend up to `amount` from `a`, replacing any earlier
    /// delegation.
    pub open spec fn approve(self, a: int, delegate: Pubkey, amount: u64) -> LedgerView {
        let acct = self.accounts[a];
        LedgerView {
            accounts: self.accounts.update(
                a,
                TokenAccount { delegate: Some(delegate), delegated_amount: amount, ..acct },
            ),
            ..self
        }
    }

    pub open spec fn freeze_state_error(self, a: int, m: int, authority: Pubkey, frozen: bool) -> Option<
        CustomErrorCode,
    > {
        let acct = self.accounts[a];
        let mint = self.mints[m];
        if acct.mint != mint.address {
            Some(CustomErrorCode::MintMismatch)
        } else if mint.freeze_authority != Some(authority) {
            Some(CustomErrorCode::OwnerMismatch)
        } else if acct.frozen == frozen {
            Some(CustomErrorCode::InvalidState)
        } else {
            None
        }
    }

    /// Marks `a` frozen or not.
    pub open spec fn set_frozen(self, a: int, frozen: bool) -> LedgerView {
        let acct = self.accounts[a];
        LedgerView { accounts: self.accounts.update(a, TokenAccount { frozen, ..acct }), ..self }
    }

    pub open spec fn set_owner_error(self, a: int, authority: Pubkey) -> Option<CustomErrorCode> {
        let acct = self.accounts[a];
        if acct.frozen {
            Some(CustomErrorCode::AccountFrozen)
        } else if acct.owner != authority {
            Some(CustomErrorCode::OwnerMismatch)
        } else {
            None
        }
    }

    /// Hands `a` to `owner`; any delegation ends.
    pub open spec fn set_owner(self, a: int, owner: Pubkey) -> LedgerView {
        let acct = self.accounts[a];
        LedgerView {
            accounts: self.accounts.update(
                a,
                TokenAccount { owner, delegate: None, delegated_amount: 0, ..acct },
            ),
            ..self
        }
    }
}

impl Ledger {
    pub open spec fn view(&self) -> LedgerView {
        LedgerView { mints: self.mints@, accounts: self.accounts@ }
    }

    pub fn new() -> (r: Ledger)
        ensures
            r@.mints.len() == 0,
            r@.accounts.len() == 0,
    {
        Ledger { mints: Vec::new(), accounts: Vec::new() }
    }

    /// Registers an asset and returns its handle.
    pub fn add_mint(&mut self, mint: MintAccount) -> (r: usize)
        requires
            old(self)@.mints.len() < usize::MAX,
        ensures
            r == old(self)@.mints.len(),
            final(self)@ == (LedgerView { mints: old(self)@.mints.push(mint), ..old(self)@ }),
    {
        self.mints.push(mint);
        self.mints.len() - 1
    }

    /// Registers a holding account and returns its handle.
    pub fn add_account(&mut self, account: TokenAccount) -> (r: usize)
        requires
            old(self)@.accounts.len() < usize::MAX,
        ensures
            r == old(self)@.accounts.len(),
            final(self)@ == (LedgerView { accounts: old(self)@.accounts.push(account), ..old(self)@ }),
    {
        self.accounts.push(account);
        self.accounts.len() - 1
    }

    /// A copy of the whole ledger.
    pub fn copy(&self) -> (r: Ledger)
        ensures
            r@ == self@,
    {
        let mut mints: Vec<MintAccount> = Vec::new();
        let mut i: usize = 0;
        while i < self.mints.len()
            invariant
                i <= self.mints@.len(),
                mints@ == self.mints@.subrange(0, i as int),
            decreases self.mints.len() - i,
        {
            mints.push(self.mints[i]);
            i = i + 1;
        }
        let mut accounts: Vec<TokenAccount> = Vec::new();
        let mut j: usize = 0;
        while j < self.accounts.len()
            invariant
                j <= self.accounts@.len(),
                accounts@ == self.accounts@.subrange(0, j as int),
            decreases self.accounts.len() - j,
        {
            accounts.push(self.accounts[j]);
            j = j + 1;
        }
        assert(mints@ =~= self.mints@);
        assert(accounts@ =~= self.accounts@);
        Ledger { mints, accounts }
    }

    fn spend_check(acct: &TokenAccount, authority: &Pubkey, amount: u64) -> (r: Result<(), CustomErrorCode>)
        ensures
            r is Err <==> spend_error(*acct, *authority, amount).is_some(),
            r matches Err(e) ==> spend_error(*acct, *authority, amount) == Some(e),
    {
        if holds_key(&acct.delegate, authority) {
            if acct.delegated_amount < amount {
                return Err(CustomErrorCode::InsufficientFunds);
            }
        } else if !acct.owner.same_as(authority) {
            return Err(CustomErrorCode::OwnerMismatch);
        }
        Ok(())
    }

    fn spend(acct: &TokenAccount, authority: &Pubkey, amount: u64) -> (r: TokenAccount)
        requires
            spend_error(*acct, *authority, amount).is_none(),
        ensures
            r == after_spend(*acct, *authority, amount),
    {
        if holds_key(&acct.delegate, authority) {
            let left = acct.delegated_amount - amount;
            TokenAccount {
                delegate: if left == 0 {
                    None
                } else {
                    acct.delegate
                },
                delegated_amount: left,
                ..*acct
            }
        } else {
            *acct
        }
    }

    pub fn transfer(&mut self, from: usize, to: usize, authority: &Pubkey, amount: u64) -> (r: Result<
        (),
        CustomErrorCode,
    >)
        requires
            old(self)@.has_account(from as int),
            old(self)@.has_account(to as int),
        ensures
            r is Err <==> old(self)@.transfer_error(from as int, to as int, *authority, amount).is_some(),
            r matches Err(e) ==> old(self)@.transfer_error(from as int, to as int, *authority, amount)
                == Some(e) && final(self)@ == old(self)@,
            r is Ok ==> final(self)@ == old(self)@.transfer(from as int, to as int, *authority, amount),
    {
        let s = self.accounts[from];
        let d = self.accounts[to];
        if s.frozen || d.frozen {
            return Err(CustomErrorCode::AccountFrozen);
        }
        if s.amount < amount {
            return Err(CustomErrorCode::InsufficientFunds);
        }
        if !s.mint.same_as(&d.mint) {
            return Err(CustomErrorCode::MintMismatch);
        }
        match Self::spend_check(&s, authority, amount) {
            Err(e) => {
                return Err(e);
            },
            Ok(()) => {},
        }
        if from == to {
            return Ok(());
        }
        if d.amount > u64::MAX - amount {
            return Err(CustomErrorCode::Overflow);
        }
        let spent = Self::spend(&s, authority, amount);
        self.accounts.set(from, TokenAccount { amount: s.amount - amount, ..spent });
        self.accounts.set(to, TokenAccount { amount: d.amount + amount, ..d });
        Ok(())
    }

    pub fn mint_to(&mut self, m: usize, to: usize, authority: &Pubkey, amount: u64) -> (r: Result<
        (),
        CustomErrorCode,
    >)
        requires
            old(self)@.has_mint(m as int),
            old(self)@.has_account(to as int),
        ensures
            r is Err <==> old(self)@.mint_to_error(m as int, to as int, *authority, amount).is_some(),
            r matches Err(e) ==> old(self)@.mint_to_error(m as int, to as int, *authority, amount)
                == Some(e) && final(self)@ == old(self)@,
            r is Ok ==> final(self)@ == old(self)@.mint_to(m as int, to as int, amount),
    {
        let mint = self.mints[m];
        let d = self.accounts[to];
        if d.frozen {
            return Err(CustomErrorCode::AccountFrozen);
        }
        if !d.mint.same_as(&mint.address) {
            return Err(CustomErrorCode::MintMismatch);
        }
        if !holds_key(&mint.mint_authority, authority) {
            return Err(CustomErrorCode::OwnerMismatch);
        }
        if mint.supply > u64::MAX - amount || d.amount > u64::MAX - amount {
            return Err(CustomErrorCode::Overflow);
        }
        self.mints.set(m, MintAccount { supply: mint.supply + amount, ..mint });
        self.accounts.set(to, TokenAccount { amount: d.amount + amount, ..d });
        Ok(())
    }

    pub fn burn(&mut self, from: usize, m: usize, authority: &Pubkey, amount: u64) -> (r: Result<
        (),
        CustomErrorCode,
    >)
        requires
            old(self)@.has_mint(m as int),
            old(self)@.has_account(from as int),
        ensures
            r is Err <==> old(self)@.burn_error(from as int, m as int, *authority, amount).is_some(),
            r matches Err(e) ==> old(self)@.burn_error(from as int, m as int, *authority, amount)
                == Some(e) && final(self)@ == old(self)@,
            r is Ok ==> final(self)@ == old(self)@.burn(from as int, m as int, *authority, amount),
    {
        let mint = self.mints[m];
        let s = self.accounts[from];
        if s.frozen {
            return Err(CustomErrorCode::AccountFrozen);
        }
        if !s.mint.same_as(&mint.address) {
            return Err(CustomErrorCode::MintMismatch);
        }
        if s.amount < amount {
            return Err(CustomErrorCode::InsufficientFunds);
        }
        match Self::spend_check(&s, authority, amount) {
            Err(e) => {
                return Err(e);
            },
            Ok(()) => {},
        }
        if mint.supply < amount {
            return Err(CustomErrorCode::Overflow);
        }
        let spent = Self::spend(&s, authority, amount);
        self.mints.set(m, MintAccount { supply: mint.supply - amount, ..mint });
        self.accounts.set(from, TokenAccount { amount: s.amount - amount, ..spent });
        Ok(())
    }

    pub fn approve(&mut self, a: usize, delegate: &Pubkey, authority: &Pubkey, amount: u64) -> (r:
        Result<(), CustomErrorCode>)
        requires
            old(self)@.has_account(a as int),
        ensures
            r is Err <==> old(self)@.approve_error(a as int, *authority).is_some(),
            r matches Err(e) ==> old(self)@.approve_error(a as int, *authority) == Some(e)
                && final(self)@ == old(self)@,
            r is Ok ==> final(self)@ == old(self)@.approve(a as int, *delegate, amount),
    {
        let acct = self.accounts[a];
        if acct.frozen {
            return Err(CustomErrorCode::AccountFrozen);
        }
        if !acct.owner.same_as(authority) {
            return Err(CustomErrorCode::OwnerMismatch);
        }
        self.accounts.set(
            a,
            TokenAccount { delegate: Some(*delegate), delegated_amount: amount, ..acct },
        );
        Ok(())
    }

    /// Freezes (`frozen`) or thaws account `a` of asset `m`.
    pub fn set_freeze_state(&mut self, a: usize, m: usize, authority: &Pubkey, frozen: bool) -> (r:
        Result<(), CustomErrorCode>)
        requires
            old(self)@.has_account(a as int),
            old(self)@.has_mint(m as int),
        ensures
            r is Err <==> old(self)@.freeze_state_error(a as int, m as int, *authority, frozen).is_some(),
            r matches Err(e) ==> old(self)@.freeze_state_error(a as int, m as int, *authority, frozen)
                == Some(e) && final(self)@ == old(self)@,
            r is Ok ==> final(self)@ == old(self)@.set_frozen(a as int, frozen),
    {
        let acct = self.accounts[a];
        let mint = self.mints[m];
        if !acct.mint.same_as(&mint.address) {
            return Err(CustomErrorCode::MintMismatch);
        }
        if !holds_key(&mint.freeze_authority, authority) {
            return Err(CustomErrorCode::OwnerMismatch);
        }
        if acct.frozen == frozen {
            return Err(CustomErrorCode::InvalidState);
        }
        self.accounts.set(a, TokenAccount { frozen, ..acct });
        Ok(())
    }

    pub fn set_owner(&mut self, a: usize, authority: &Pubkey, owner: &Pubkey) -> (r: Result<
        (),
        CustomErrorCode,
    >)
        requires
            old(self)@.has_account(a as int),
        ensures
            r is Err <==> old(self)@.set_owner_error(a as int, *authority).is_some(),
            r matches Err(e) ==> old(self)@.set_owner_error(a as int, *authority) == Some(e)
                && final(self)@ == old(self)@,
            r is Ok ==> final(self)@ == old(self)@.set_owner(a as int, *owner),
    {
        let acct = self.accounts[a];
        if acct.frozen {
            return Err(CustomErrorCode::AccountFrozen);
        }
        if !acct.owner.same_as(authority) {
            return Err(CustomErrorCode::OwnerMismatch);
        }
        self.accounts.set(
            a,
            TokenAccount { owner: *owner, delegate: None, delegated_amount: 0, ..acct },
        );
        Ok(())
    }
}

} // verus!
