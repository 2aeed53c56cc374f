use crate::address::{
    authority_tag, derivation_view, derive_authority, derive_descriptor, derived, descriptor_tag,
    same_address, Address, Derivation,
};
use crate::ledger::{
    burn_result, credit, mint_result, transfer_result, transferred, Ledger, LedgerError,
    TokenAccount,
};
use vstd::prelude::*;

verus! {

/// The wrapped asset's descriptor, created once by setup and never changed.
#[derive(Clone, Copy, Debug)]
pub struct WrappedAssetDescriptor {
    pub address: Address,
    pub bump: u8,
    pub decimals: u8,
    pub mint_authority: Address,
    /// Always `None`: the confidential-transfer extension has no authority.
    pub confidential_transfer_authority: Option<Address>,
}

/// Why setup fails.
#[derive(Clone, Copy, Debug, PartialEq, Eq, Structural)]
pub enum SetupError {
    /// A supplied address is not the one derived from the original asset.
    DerivationMismatch,
    /// The descriptor already exists at its derived address.
    AlreadyExists,
}

/// Why a wrap or an unwrap fails. Each failure leaves every balance as it was.
#[derive(Clone, Copy, Debug, PartialEq, Eq, Structural)]
pub enum ExchangeError {
    /// The amount is zero.
    ZeroAmount,
    /// Setup has not run for this original asset.
    NotSetUp,
    /// The supplied authority is not the one derived from the original asset.
    DerivationMismatch,
    /// The holder's account is the escrow, or there is no escrow yet.
    InvalidAccount,
    /// One of the two ledgers refused its step.
    Ledger(LedgerError),
}

/// One original asset and its wrapped counterpart: the two ledgers' accounts of
/// the pair, the escrow held by the custodial authority, and the descriptor.
#[derive(Clone, Debug)]
pub struct Bridge {
    /// The program under which addresses are derived.
    pub program: Address,
    /// The original asset's address.
    pub original_mint: Address,
    pub original_decimals: u8,
    /// Accounts of the original asset.
    pub original: Ledger,
    /// Accounts of the wrapped asset.
    pub wrapped: Ledger,
    /// Index in `original` of the escrow account, once the first wrap made it.
    pub escrow: Option<usize>,
    pub descriptor: Option<WrappedAssetDescriptor>,
}

/// The outcome of checking a supplied authority against its derivation.
pub open spec fn authority_check(derived: Option<(Seq<u8>, u8)>, supplied: Seq<u8>) -> Result<u8, ExchangeError> {
    match derived {
        Some((a, bump)) => if a == supplied {
            Ok(bump)
        } else {
            Err(ExchangeError::DerivationMismatch)
        },
        None => Err(ExchangeError::DerivationMismatch),
    }
}

/// Accepts `supplied` only where it is the derived authority; gives the bump seed.
pub fn check_authority(derived: Option<Derivation>, supplied: &Address) -> (r: Result<u8, ExchangeError>)
    ensures
        r == authority_check(derivation_view(derived), supplied.bytes@),
{
    match derived {
        Some(d) => if same_address(&d.address, supplied) {
            Ok(d.bump)
        } else {
            Err(ExchangeError::DerivationMismatch)
        },
        None => Err(ExchangeError::DerivationMismatch),
    }
}

/// The accounts that setup is handed: where the caller expects the descriptor
/// and the custodial authority to be.
#[derive(Clone, Copy, Debug)]
pub struct Initialize {
    pub wrapped_mint: Address,
    pub mint_authority: Address,
}

/// The accounts that a wrap is handed.
#[derive(Clone, Copy, Debug)]
pub struct Wrap {
    /// The holder's account of the original asset, debited.
    pub deposit_from: usize,
    /// The holder's account of the wrapped asset, credited.
    pub mint_to: usize,
    pub mint_authority: Address,
}

/// The accounts that an unwrap is handed.
#[derive(Clone, Copy, Debug)]
pub struct Unwrap {
    /// The holder's account of the original asset, credited.
    pub withdraw_to: usize,
    /// The holder's account of the wrapped asset, debited.
    pub burn_from: usize,
    pub mint_authority: Address,
}

/// The outcome of setup, given the two derivations.
pub open spec fn setup_result(
    b: Bridge,
    descriptor: Option<(Seq<u8>, u8)>,
    authority: Option<(Seq<u8>, u8)>,
    accounts: Initialize,
) -> Result<(), SetupError> {
    if authority_check(descriptor, accounts.wrapped_mint.bytes@) is Err || authority_check(
        authority,
        accounts.mint_authority.bytes@,
    ) is Err {
        Err(SetupError::DerivationMismatch)
    } else if b.descriptor is Some {
        Err(SetupError::AlreadyExists)
    } else {
        Ok(())
    }
}

/// `a` is `b` with the descriptor that setup creates: at the derived address,
/// with the original's decimals, minted by the custodial authority, and with no
/// confidential-transfer authority.
pub open spec fn set_up_into(b: Bridge, a: Bridge, descriptor: Option<(Seq<u8>, u8)>, accounts: Initialize) -> bool {
    &&& a.descriptor matches Some(d)
    &&& a.descriptor->Some_0.address.bytes@ == accounts.wrapped_mint.bytes@
    &&& a.descriptor->Some_0.bump == descriptor->Some_0.1
    &&& a.descriptor->Some_0.decimals == b.original_decimals
    &&& a.descriptor->Some_0.mint_authority.bytes@ == accounts.mint_authority.bytes@
    &&& a.descriptor->Some_0.confidential_transfer_authority is None
    &&& a.original@ == b.original@
    &&& a.wrapped@ == b.wrapped@
    &&& a.escrow == b.escrow
    &&& a.program == b.program
    &&& a.original_mint == b.original_mint
    &&& a.original_decimals == b.original_decimals
}

/// The outcome of a wrap, given the authority's derivation.
pub open spec fn wrap_outcome(b: Bridge, authority: Option<(Seq<u8>, u8)>, accounts: Wrap, amount: u64) -> Result<(), ExchangeError> {
    match authority_check(authority, accounts.mint_authority.bytes@) {
        Err(e) => Err(e),
        Ok(_) => wrap_result(b, accounts.deposit_from as int, accounts.mint_to as int, amount),
    }
}

/// The outcome of an unwrap, given the authority's derivation.
pub open spec fn unwrap_outcome(b: Bridge, authority: Option<(Seq<u8>, u8)>, accounts: Unwrap, amount: u64) -> Result<(), ExchangeError> {
    match authority_check(authority, accounts.mint_authority.bytes@) {
        Err(e) => Err(e),
        Ok(_) => unwrap_result(b, accounts.withdraw_to as int, accounts.burn_from as int, amount),
    }
}

/// The original ledger's accounts once the escrow exists.
pub open spec fn with_escrow(b: Bridge) -> Seq<TokenAccount> {
    if b.escrow is Some {
        b.original.accounts@
    } else {
        b.original.accounts@.push(TokenAccount { amount: 0, frozen: false })
    }
}

/// The escrow's index once it exists.
pub open spec fn escrow_index(b: Bridge) -> int {
    match b.escrow {
        Some(e) => e as int,
        None => b.original.accounts@.len() as int,
    }
}

/// The wrapped ledger's accounts once the account at `to` exists: an index
/// just past the end stands for the holder's account that is still to be opened.
pub open spec fn with_holder_account(accounts: Seq<TokenAccount>, to: int) -> Seq<TokenAccount> {
    if to == accounts.len() {
        accounts.push(TokenAccount { amount: 0, frozen: false })
    } else {
        accounts
    }
}

/// The outcome of a wrap of `amount` from original account `from` into wrapped account `to`.
pub open spec fn wrap_result(b: Bridge, from: int, to: int, amount: u64) -> Result<(), ExchangeError> {
    if amount == 0 {
        Err(ExchangeError::ZeroAmount)
    } else if b.descriptor is None {
        Err(ExchangeError::NotSetUp)
    } else if !(0 <= from < b.original.accounts@.len()) {
        Err(ExchangeError::Ledger(LedgerError::UnknownAccount))
    } else if from == escrow_index(b) {
        Err(ExchangeError::InvalidAccount)
    } else if transfer_result(with_escrow(b), from, escrow_index(b), amount) is Err {
        Err(ExchangeError::Ledger(transfer_result(with_escrow(b), from, escrow_index(b), amount)->Err_0))
    } else if mint_result(with_holder_account(b.wrapped.accounts@, to), b.wrapped.supply, to, amount) is Err {
        Err(ExchangeError::Ledger(
            mint_result(with_holder_account(b.wrapped.accounts@, to), b.wrapped.supply, to, amount)->Err_0,
        ))
    } else {
        Ok(())
    }
}

/// `a` is `b` after a wrap that succeeded: the deposit sits in the escrow and
/// the same amount is minted to `to`, which was opened first if it was missing.
pub open spec fn wrapped_into(b: Bridge, a: Bridge, from: int, to: int, amount: u64) -> bool {
    &&& a.original.accounts@ == transferred(with_escrow(b), from, escrow_index(b), amount)
    &&& a.original.supply == b.original.supply
    &&& a.wrapped.accounts@ == credit(with_holder_account(b.wrapped.accounts@, to), to, amount as int)
    &&& a.wrapped.supply == b.wrapped.supply + amount
    &&& a.escrow is Some
    &&& a.escrow->Some_0 == escrow_index(b)
    &&& a.descriptor == b.descriptor
    &&& a.program == b.program
    &&& a.original_mint == b.original_mint
    &&& a.original_decimals == b.original_decimals
}

/// The outcome of an unwrap of `amount` from wrapped account `from` back to original account `to`.
pub open spec fn unwrap_result(b: Bridge, to: int, from: int, amount: u64) -> Result<(), ExchangeError> {
    if amount == 0 {
        Err(ExchangeError::ZeroAmount)
    } else if b.descriptor is None {
        Err(ExchangeError::NotSetUp)
    } else if b.escrow is None || to == escrow_index(b) {
        Err(ExchangeError::InvalidAccount)
    } else if transfer_result(b.original.accounts@, escrow_index(b), to, amount) is Err {
        Err(ExchangeError::Ledger(transfer_result(b.original.accounts@, escrow_index(b), to, amount)->Err_0))
    } else if burn_result(b.wrapped, from, amount) is Err {
        Err(ExchangeError::Ledger(burn_result(b.wrapped, from, amount)->Err_0))
    } else {
        Ok(())
    }
}

/// `a` is `b` after an unwrap that succeeded: the escrow released the amount to
/// `to` and the same amount was burned from `from`.
pub open spec fn unwrapped_into(b: Bridge, a: Bridge, to: int, from: int, amount: u64) -> bool {
    &&& a.original.accounts@ == transferred(b.original.accounts@, escrow_index(b), to, amount)
    &&& a.original.supply == b.original.supply
    &&& a.wrapped.accounts@ == credit(b.wrapped.accounts@, from, -amount)
    &&& a.wrapped.supply == b.wrapped.supply - amount
    &&& a.escrow == b.escrow
    &&& a.descriptor == b.descriptor
    &&& a.program == b.program
    &&& a.original_mint == b.original_mint
    &&& a.original_decimals == b.original_decimals
}

impl Bridge {
    /// What the escrow holds; zero before it exists.
    pub open spec fn escrow_balance(self) -> int {
        match self.escrow {
            Some(e) => self.original.balance(e as int),
            None => 0,
        }
    }

    /// The escrow, if any, is an account of the original ledger, and it holds
    /// exactly the wrapped asset's supply; before setup there is neither escrow
    /// nor wrapped supply.
    pub open spec fn wf(self) -> bool {
        &&& (self.descriptor is None ==> self.escrow is None && self.wrapped.supply == 0)
        &&& (self.escrow matches Some(e) ==> e < self.original.accounts@.len())
        &&& self.escrow_balance() == self.wrapped.supply as int
    }

    /// A bridge for the original asset `original_mint`, whose accounts are
    /// `original`, before setup: no descriptor, no escrow, no wrapped accounts.
    pub fn new(program: Address, original_mint: Address, original_decimals: u8, original: Ledger) -> (r: Bridge)
        ensures
            r.wf(),
            r.program == program,
            r.original_mint == original_mint,
            r.original_decimals == original_decimals,
            r.original == original,
            r.wrapped.accounts@.len() == 0,
            r.wrapped.supply == 0,
            r.escrow is None,
            r.descriptor is None,
    {
        Bridge {
            program,
            original_mint,
            original_decimals,
            original,
            wrapped: Ledger::new(),
            escrow: None,
            descriptor: None,
        }
    }
}


/// `a` and `b` hold the same balances, escrow, descriptor and asset.
pub open spec fn unchanged(a: Bridge, b: Bridge) -> bool {
    &&& a.original@ == b.original@
    &&& a.wrapped@ == b.wrapped@
    &&& a.escrow == b.escrow
    &&& a.descriptor == b.descriptor
    &&& a.program == b.program
    &&& a.original_mint == b.original_mint
    &&& a.original_decimals == b.original_decimals
}

impl Bridge {
    /// Moves `amount` of the original asset from `from` into the escrow, making
    /// the escrow first if there is none, then mints `amount` of the wrapped
    /// asset to `to`, opening that account first where `to` is the next free
    /// index. Where the mint fails the deposit is given back and freshly made
    /// accounts are removed, so a failure changes nothing.
    pub fn deposit_and_mint(&mut self, from: usize, to: usize, amount: u64) -> (r: Result<(), ExchangeError>)
        requires
            old(self).wf(),
            old(self).original.accounts@.len() < usize::MAX,
            old(self).wrapped.accounts@.len() < usize::MAX,
        ensures
            r == wrap_result(*old(self), from as int, to as int, amount),
            r is Ok ==> wrapped_into(*old(self), *final(self), from as int, to as int, amount),
            r is Err ==> unchanged(*old(self), *final(self)),
            final(self).wf(),
    {
        if amount == 0 {
            return Err(ExchangeError::ZeroAmount);
        }
        if self.descriptor.is_none() {
            return Err(ExchangeError::NotSetUp);
        }
        if from >= self.original.accounts.len() {
            return Err(ExchangeError::Ledger(LedgerError::UnknownAccount));
        }
        let created = self.escrow.is_none();
        let escrow = match self.escrow {
            Some(e) => e,
            None => self.original.accounts.len(),
        };
        if from == escrow {
            return Err(ExchangeError::InvalidAccount);
        }
        let ghost before = *self;
        if created {
            self.original.open_account();
        }
        assert(self.original.accounts@ =~= with_escrow(before));
        match self.original.transfer(from, escrow, amount) {
            Err(e) => {
                if created {
                    self.original.accounts.pop();
                    assert(self.original.accounts@ =~= before.original.accounts@);
                }
                return Err(ExchangeError::Ledger(e));
            },
            Ok(()) => {},
        }
        let ghost wrapped_before = self.wrapped;
        let opened = to == self.wrapped.accounts.len();
        if opened {
            self.wrapped.open_account();
        }
        assert(self.wrapped.accounts@ =~= with_holder_account(wrapped_before.accounts@, to as int));
        match self.wrapped.mint_to(to, amount) {
            Err(e) => {
                if opened {
                    self.wrapped.accounts.pop();
                    assert(self.wrapped.accounts@ =~= wrapped_before.accounts@);
                }
                let back = self.original.transfer(escrow, from, amount);
                assert(back is Ok);
                assert(self.original.accounts@ =~= with_escrow(before));
                if created {
                    self.original.accounts.pop();
                    assert(self.original.accounts@ =~= before.original.accounts@);
                }
                return Err(ExchangeError::Ledger(e));
            },
            Ok(()) => {},
        }
        self.escrow = Some(escrow);
        Ok(())
    }
}


impl Bridge {
    /// Releases `amount` of the original asset from the escrow to `to`, signed
    /// by the custodial authority, then burns `amount` of the wrapped asset from
    /// `from`. Where the burn fails the release is taken back, so a failure
    /// changes nothing.
    pub fn release_and_burn(&mut self, to: usize, from: usize, amount: u64) -> (r: Result<(), ExchangeError>)
        requires
            old(self).wf(),
        ensures
            r == unwrap_result(*old(self), to as int, from as int, amount),
            r is Ok ==> unwrapped_into(*old(self), *final(self), to as int, from as int, amount),
            r is Err ==> unchanged(*old(self), *final(self)),
            final(self).wf(),
    {
        if amount == 0 {
            return Err(ExchangeError::ZeroAmount);
        }
        if self.descriptor.is_none() {
            return Err(ExchangeError::NotSetUp);
        }
        let escrow = match self.escrow {
            Some(e) => e,
            None => {
                return Err(ExchangeError::InvalidAccount);
            },
        };
        if to == escrow {
            return Err(ExchangeError::InvalidAccount);
        }
        let ghost before = *self;
        match self.original.transfer(escrow, to, amount) {
            Err(e) => {
                return Err(ExchangeError::Ledger(e));
            },
            Ok(()) => {},
        }
        match self.wrapped.burn(from, amount) {
            Err(e) => {
                let back = self.original.transfer(to, escrow, amount);
                assert(back is Ok);
                assert(self.original.accounts@ =~= before.original.accounts@);
                return Err(ExchangeError::Ledger(e));
            },
            Ok(()) => {},
        }
        Ok(())
    }
}


impl Bridge {
    /// Creates the descriptor once the supplied addresses are checked against
    /// the derivations; a second setup fails.
    pub fn install_descriptor(
        &mut self,
        descriptor: Option<Derivation>,
        authority: Option<Derivation>,
        accounts: &Initialize,
    ) -> (r: Result<(), SetupError>)
        requires
            old(self).wf(),
        ensures
            r == setup_result(*old(self), derivation_view(descriptor), derivation_view(authority), *accounts),
            r is Ok ==> set_up_into(*old(self), *final(self), derivation_view(descriptor), *accounts),
            r is Err ==> unchanged(*old(self), *final(self)),
            final(self).wf(),
    {
        let bump = match check_authority(descriptor, &accounts.wrapped_mint) {
            Ok(bump) => bump,
            Err(_) => {
                return Err(SetupError::DerivationMismatch);
            },
        };
        if check_authority(authority, &accounts.mint_authority).is_err() {
            return Err(SetupError::DerivationMismatch);
        }
        if self.descriptor.is_some() {
            return Err(SetupError::AlreadyExists);
        }
        self.descriptor = Some(
            WrappedAssetDescriptor {
                address: accounts.wrapped_mint,
                bump,
                decimals: self.original_decimals,
                mint_authority: accounts.mint_authority,
                confidential_transfer_authority: None,
            },
        );
        Ok(())
    }

    /// A wrap once the custodial authority has been derived.
    pub fn wrap_with(&mut self, authority: Option<Derivation>, accounts: &Wrap, amount: u64) -> (r: Result<(), ExchangeError>)
        requires
            old(self).wf(),
            old(self).original.accounts@.len() < usize::MAX,
            old(self).wrapped.accounts@.len() < usize::MAX,
        ensures
            r == wrap_outcome(*old(self), derivation_view(authority), *accounts, amount),
            r is Ok ==> wrapped_into(
                *old(self),
                *final(self),
                accounts.deposit_from as int,
                accounts.mint_to as int,
                amount,
            ),
            r is Err ==> unchanged(*old(self), *final(self)),
            final(self).wf(),
    {
        if let Err(e) = check_authority(authority, &accounts.mint_authority) {
            return Err(e);
        }
        self.deposit_and_mint(accounts.deposit_from, accounts.mint_to, amount)
    }

    /// An unwrap once the custodial authority has been derived.
    pub fn unwrap_with(&mut self, authority: Option<Derivation>, accounts: &Unwrap, amount: u64) -> (r: Result<(), ExchangeError>)
        requires
            old(self).wf(),
        ensures
            r == unwrap_outcome(*old(self), derivation_view(authority), *accounts, amount),
            r is Ok ==> unwrapped_into(
                *old(self),
                *final(self),
                accounts.withdraw_to as int,
                accounts.burn_from as int,
                amount,
            ),
            r is Err ==> unchanged(*old(self), *final(self)),
            final(self).wf(),
    {
        if let Err(e) = check_authority(authority, &accounts.mint_authority) {
            return Err(e);
        }
        self.release_and_burn(accounts.withdraw_to, accounts.burn_from, amount)
    }
}

/// Setup: derives the descriptor's address and the custodial authority of the
/// bridge's original asset and creates the descriptor there.
pub fn initialize(bridge: &mut Bridge, accounts: &Initialize) -> (r: Result<(), SetupError>)
    requires
        old(bridge).wf(),
    ensures
        r == setup_result(
            *old(bridge),
            derived(old(bridge).original_mint.bytes@, descriptor_tag(), old(bridge).program.bytes@),
            derived(old(bridge).original_mint.bytes@, authority_tag(), old(bridge).program.bytes@),
            *accounts,
        ),
        r is Ok ==> set_up_into(
            *old(bridge),
            *final(bridge),
            derived(old(bridge).original_mint.bytes@, descriptor_tag(), old(bridge).program.bytes@),
            *accounts,
        ),
        r is Err ==> unchanged(*old(bridge), *final(bridge)),
        final(bridge).wf(),
{
    let descriptor = derive_descriptor(&bridge.original_mint, &bridge.program);
    let authority = derive_authority(&bridge.original_mint, &bridge.program);
    bridge.install_descriptor(descriptor, authority, accounts)
}

/// Wrap: takes `amount` of the original asset from the holder into the escrow
/// and mints as much of the wrapped asset to the holder, or changes nothing.
pub fn wrap(bridge: &mut Bridge, accounts: &Wrap, amount: u64) -> (r: Result<(), ExchangeError>)
    requires
        old(bridge).wf(),
        old(bridge).original.accounts@.len() < usize::MAX,
        old(bridge).wrapped.accounts@.len() < usize::MAX,
    ensures
        r == wrap_outcome(
            *old(bridge),
            derived(old(bridge).original_mint.bytes@, authority_tag(), old(bridge).program.bytes@),
            *accounts,
            amount,
        ),
        r is Ok ==> wrapped_into(
            *old(bridge),
            *final(bridge),
            accounts.deposit_from as int,
            accounts.mint_to as int,
            amount,
        ),
        r is Err ==> unchanged(*old(bridge), *final(bridge)),
        final(bridge).wf(),
{
    let authority = derive_authority(&bridge.original_mint, &bridge.program);
    bridge.wrap_with(authority, accounts, amount)
}

/// Unwrap: releases `amount` of the original asset from the escrow to the
/// holder and burns as much of the holder's wrapped asset, or changes nothing.
pub fn unwrap(bridge: &mut Bridge, accounts: &Unwrap, amount: u64) -> (r: Result<(), ExchangeError>)
    requires
        old(bridge).wf(),
    ensures
        r == unwrap_outcome(
            *old(bridge),
            derived(old(bridge).original_mint.bytes@, authority_tag(), old(bridge).program.bytes@),
            *accounts,
            amount,
        ),
        r is Ok ==> unwrapped_into(
            *old(bridge),
            *final(bridge),
            accounts.withdraw_to as int,
            accounts.burn_from as int,
            amount,
        ),
        r is Err ==> unchanged(*old(bridge), *final(bridge)),
        final(bridge).wf(),
{
    let authority = derive_authority(&bridge.original_mint, &bridge.program);
    bridge.unwrap_with(authority, accounts, amount)
}

} // verus!
