use vstd::prelude::*;

verus! {

/// One token account of a ledger.
#[derive(Clone, Copy, Debug, PartialEq, Eq, Structural)]
pub struct TokenAccount {
    pub amount: u64,
    pub frozen: bool,
}

/// Why a ledger refuses an operation.
#[derive(Clone, Copy, Debug, PartialEq, Eq, Structural)]
pub enum LedgerError {
    /// No account at the index given.
    UnknownAccount,
    /// The account to debit or credit is frozen.
    AccountFrozen,
    /// The source holds less than the amount.
    InsufficientFunds,
    /// A balance or the supply would leave the range of `u64`.
    Overflow,
}

/// The accounts of one asset on a token ledger, with the asset's supply.
#[derive(Clone, Debug)]
pub struct Ledger {
    pub accounts: Vec<TokenAccount>,
    pub supply: u64,
}

/// The result of a transfer on an account sequence.
pub open spec fn transfer_result(accounts: Seq<TokenAccount>, from: int, to: int, amount: u64) -> Result<(), LedgerError> {
    if !(0 <= from < accounts.len() && 0 <= to < accounts.len()) {
        Err(LedgerError::UnknownAccount)
    } else if accounts[from].frozen || accounts[to].frozen {
        Err(LedgerError::AccountFrozen)
    } else if accounts[from].amount < amount {
        Err(LedgerError::InsufficientFunds)
    } else if from != to && accounts[to].amount + amount > u64::MAX {
        Err(LedgerError::Overflow)
    } else {
        Ok(())
    }
}

/// `accounts` with `delta` added to the amount at `i`.
pub open spec fn credit(accounts: Seq<TokenAccount>, i: int, delta: int) -> Seq<TokenAccount> {
    accounts.update(i, TokenAccount { amount: (accounts[i].amount + delta) as u64, frozen: accounts[i].frozen })
}

/// The accounts after a transfer that succeeds.
pub open spec fn transferred(accounts: Seq<TokenAccount>, from: int, to: int, amount: u64) -> Seq<TokenAccount> {
    credit(credit(accounts, from, -amount), to, amount as int)
}

/// The result of minting to the account at `to`, given the accounts and the supply.
pub open spec fn mint_result(accounts: Seq<TokenAccount>, supply: u64, to: int, amount: u64) -> Result<(), LedgerError> {
    if !(0 <= to < accounts.len()) {
        Err(LedgerError::UnknownAccount)
    } else if accounts[to].frozen {
        Err(LedgerError::AccountFrozen)
    } else if supply + amount > u64::MAX || accounts[to].amount + amount > u64::MAX {
        Err(LedgerError::Overflow)
    } else {
        Ok(())
    }
}

/// The result of burning from an account.
pub open spec fn burn_result(l: Ledger, from: int, amount: u64) -> Result<(), LedgerError> {
    if !(0 <= from < l.accounts@.len()) {
        Err(LedgerError::UnknownAccount)
    } else if l.accounts@[from].frozen {
        Err(LedgerError::AccountFrozen)
    } else if l.accounts@[from].amount < amount {
        Err(LedgerError::InsufficientFunds)
    } else if l.supply < amount {
        Err(LedgerError::Overflow)
    } else {
        Ok(())
    }
}

impl View for Ledger {
    type V = (Seq<TokenAccount>, u64);

    open spec fn view(&self) -> (Seq<TokenAccount>, u64) {
        (self.accounts@, self.supply)
    }
}

impl Ledger {
    /// The amount held at `i`, zero where there is no such account.
    pub open spec fn balance(self, i: int) -> int {
        if 0 <= i < self.accounts@.len() {
            self.accounts@[i].amount as int
        } else {
            0
        }
    }

    /// A ledger with no accounts and no supply.
    pub fn new() -> (r: Ledger)
        ensures
            r.accounts@ == Seq::<TokenAccount>::empty(),
            r.supply == 0,
    {
        Ledger { accounts: Vec::new(), supply: 0 }
    }

    /// Opens an empty, unfrozen account and returns its index.
    pub fn open_account(&mut self) -> (r: usize)
        requires
            old(self).accounts@.len() < usize::MAX,
        ensures
            r == old(self).accounts@.len(),
            final(self).accounts@ == old(self).accounts@.push(TokenAccount { amount: 0, frozen: false }),
            final(self).supply == old(self).supply,
    {
        let r = self.accounts.len();
        self.accounts.push(TokenAccount { amount: 0, frozen: false });
        r
    }

    /// Sets the amount held at `i`, leaving its frozen flag.
    fn set_amount(&mut self, i: usize, amount: u64)
        requires
            i < old(self).accounts@.len(),
        ensures
            final(self).accounts@ == old(self).accounts@.update(
                i as int,
                TokenAccount { amount, frozen: old(self).accounts@[i as int].frozen },
            ),
            final(self).supply == old(self).supply,
    {
        let frozen = self.accounts[i].frozen;
        self.accounts.set(i, TokenAccount { amount, frozen });
    }

    /// Moves `amount` from the account at `from` to the account at `to`.
    pub fn transfer(&mut self, from: usize, to: usize, amount: u64) -> (r: Result<(), LedgerError>)
        ensures
            r == transfer_result(old(self).accounts@, from as int, to as int, amount),
            r is Ok ==> final(self).accounts@ == transferred(old(self).accounts@, from as int, to as int, amount),
            r is Err ==> *final(self) == *old(self),
            final(self).supply == old(self).supply,
    {
        if from >= self.accounts.len() || to >= self.accounts.len() {
            return Err(LedgerError::UnknownAccount);
        }
        if self.accounts[from].frozen || self.accounts[to].frozen {
            return Err(LedgerError::AccountFrozen);
        }
        if self.accounts[from].amount < amount {
            return Err(LedgerError::InsufficientFunds);
        }
        if from != to && self.accounts[to].amount > u64::MAX - amount {
            return Err(LedgerError::Overflow);
        }
        let debited = self.accounts[from].amount - amount;
        self.set_amount(from, debited);
        let credited = self.accounts[to].amount + amount;
        self.set_amount(to, credited);
        Ok(())
    }

    /// Creates `amount` new units in the account at `to`.
    pub fn mint_to(&mut self, to: usize, amount: u64) -> (r: Result<(), LedgerError>)
        ensures
            r == mint_result(old(self).accounts@, old(self).supply, to as int, amount),
            r is Ok ==> final(self).accounts@ == credit(old(self).accounts@, to as int, amount as int)
                && final(self).supply == old(self).supply + amount,
            r is Err ==> *final(self) == *old(self),
    {
        if to >= self.accounts.len() {
            return Err(LedgerError::UnknownAccount);
        }
        if self.accounts[to].frozen {
            return Err(LedgerError::AccountFrozen);
        }
        if self.supply > u64::MAX - amount || self.accounts[to].amount > u64::MAX - amount {
            return Err(LedgerError::Overflow);
        }
        let credited = self.accounts[to].amount + amount;
        self.set_amount(to, credited);
        self.supply = self.supply + amount;
        Ok(())
    }

    /// Destroys `amount` units held in the account at `from`.
    pub fn burn(&mut self, from: usize, amount: u64) -> (r: Result<(), LedgerError>)
        ensures
            r == burn_result(*old(self), from as int, amount),
            r is Ok ==> final(self).accounts@ == credit(old(self).accounts@, from as int, -amount)
                && final(self).supply == old(self).supply - amount,
            r is Err ==> *final(self) == *old(self),
    {
        if from >= self.accounts.len() {
            return Err(LedgerError::UnknownAccount);
        }
        if self.accounts[from].frozen {
            return Err(LedgerError::AccountFrozen);
        }
        if self.accounts[from].amount < amount {
            return Err(LedgerError::InsufficientFunds);
        }
        if self.supply < amount {
            return Err(LedgerError::Overflow);
        }
        let debited = self.accounts[from].amount - amount;
        self.set_amount(from, debited);
        self.supply = self.supply - amount;
        Ok(())
    }
}

} // verus!
