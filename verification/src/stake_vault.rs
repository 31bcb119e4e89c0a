//! The staking vault: records what each user has staked and grades the
//! reward multiplier (in basis points, 100 = 1.0x) that a stake earns.

use vstd::prelude::*;
use crate::access::{admin_check_spec, check_admin, install_admin, opt_view, AdminCheck};
use crate::address::Address;
use crate::table::AddressTable;

verus! {

/// A user's stake.
#[derive(Debug, Clone, Copy, PartialEq, Eq, Structural)]
pub struct StakeInfo {
    pub amount: i128,
    pub lock_timestamp: u64,
}

impl View for StakeInfo {
    type V = StakeInfo;

    open spec fn view(&self) -> StakeInfo {
        *self
    }
}

/// The event published when the admin upgrades the contract's code.
pub struct ContractUpgraded {
    pub admin: Address,
    pub new_wasm_hash: [u8; 32],
}

/// Why a vault operation was refused.
#[derive(Debug, Clone, Copy, PartialEq, Eq, Structural)]
pub enum VaultError {
    AlreadyInitialized,
    NotInitialized,
    Unauthorized,
}

/// The text with which the contract reports each refusal.
pub open spec fn vault_error_text(e: VaultError) -> Seq<char> {
    match e {
        VaultError::AlreadyInitialized => "Already initialized"@,
        VaultError::NotInitialized => "Not initialized"@,
        VaultError::Unauthorized => "Unauthorized"@,
    }
}

impl VaultError {
    /// The text with which the contract reports this refusal.
    pub fn message(&self) -> (m: &'static str)
        ensures
            m@ == vault_error_text(*self),
    {
        match self {
            VaultError::AlreadyInitialized => "Already initialized",
            VaultError::NotInitialized => "Not initialized",
            VaultError::Unauthorized => "Unauthorized",
        }
    }
}

/// The stake of a user for whom nothing is stored.
pub open spec fn no_stake() -> StakeInfo {
    StakeInfo { amount: 0, lock_timestamp: 0 }
}

/// The multiplier, in basis points, that a staked amount earns: 2.0x from
/// 500 up, 1.2x from 100 up, 1.0x below.
pub open spec fn multiplier_spec(amount: int) -> u32 {
    if amount >= 500 {
        200
    } else if amount >= 100 {
        120
    } else {
        100
    }
}

/// The multiplier, in basis points, that `stake` earns.
pub fn multiplier_for(stake: &StakeInfo) -> (m: u32)
    ensures
        m == multiplier_spec(stake.amount as int),
        stake.amount >= 500 ==> m == 200,
        100 <= stake.amount < 500 ==> m == 120,
        stake.amount < 100 ==> m == 100,
{
    if stake.amount >= 500 {
        200
    } else if stake.amount >= 100 {
        120
    } else {
        100
    }
}

/// Whether `admin` is the protocol admin stored in the slot `stored`, and why not.
pub open spec fn upgrade_check(stored: Option<Seq<u8>>, admin: Seq<u8>) -> Result<(), VaultError> {
    match admin_check_spec(stored, admin) {
        AdminCheck::Missing => Err(VaultError::NotInitialized),
        AdminCheck::Mismatch => Err(VaultError::Unauthorized),
        AdminCheck::Granted => Ok(()),
    }
}

/// The vault's storage: the protocol admin and each user's stake.
pub struct StakeVaultView {
    pub admin: Option<Seq<u8>>,
    pub stakes: Map<Seq<u8>, StakeInfo>,
}

impl StakeVaultView {
    /// A user's stake; nothing staked where nothing is stored.
    pub open spec fn stake_of(self, user: Seq<u8>) -> StakeInfo {
        if self.stakes.contains_key(user) {
            self.stakes[user]
        } else {
            no_stake()
        }
    }

    /// The multiplier a user's stake earns.
    pub open spec fn multiplier_of(self, user: Seq<u8>) -> u32 {
        multiplier_spec(self.stake_of(user).amount as int)
    }

    /// The storage after installing `admin` as the protocol admin.
    pub open spec fn initialize(self, admin: Seq<u8>) -> Result<Self, VaultError> {
        if self.admin is Some {
            Err(VaultError::AlreadyInitialized)
        } else {
            Ok(StakeVaultView { admin: Some(admin), stakes: self.stakes })
        }
    }

    /// Whether `admin` may upgrade the contract's code, and why not.
    pub open spec fn upgrade_allowed(self, admin: Seq<u8>) -> Result<(), VaultError> {
        upgrade_check(self.admin, admin)
    }
}

/// Whether `admin` is the protocol admin stored in `stored`, and why not.
pub fn authorize_upgrade(stored: &Option<Address>, admin: &Address) -> (r: Result<(), VaultError>)
    ensures
        r == upgrade_check(opt_view(*stored), admin@),
{
    match check_admin(stored, admin) {
        AdminCheck::Missing => Err(VaultError::NotInitialized),
        AdminCheck::Mismatch => Err(VaultError::Unauthorized),
        AdminCheck::Granted => Ok(()),
    }
}

/// The multiplier earns at least as much for a larger stake.
pub proof fn law_multiplier_monotone(a: int, b: int)
    requires
        a <= b,
    ensures
        multiplier_spec(a) <= multiplier_spec(b),
{
}

/// The multiplier is one of the three grades 1.0x, 1.2x and 2.0x, and never
/// below 1.0x.
pub proof fn law_multiplier_grades(amount: int)
    ensures
        multiplier_spec(amount) == 100 || multiplier_spec(amount) == 120 || multiplier_spec(amount) == 200,
        multiplier_spec(amount) >= 100,
{
}

/// A user with nothing staked earns the base multiplier, 1.0x.
pub proof fn law_no_stake_base_multiplier(s: StakeVaultView, user: Seq<u8>)
    requires
        !s.stakes.contains_key(user),
    ensures
        s.multiplier_of(user) == 100,
{
}

/// A user's stake is what storage holds for the user, and nothing staked
/// (amount 0, no lock) when storage holds nothing for the user.
pub proof fn law_stake_of_reads_storage(s: StakeVaultView, user: Seq<u8>)
    ensures
        s.stakes.contains_key(user) ==> s.stake_of(user) == s.stakes[user],
        !s.stakes.contains_key(user) ==> s.stake_of(user) == (StakeInfo { amount: 0, lock_timestamp: 0 }),
{
}

/// The multiplier a user earns is graded on the staked amount alone: 200
/// from 500 up, 120 from 100 up to 499, 100 below 100.
pub proof fn law_multiplier_grades_amount(s: StakeVaultView, user: Seq<u8>)
    ensures
        s.stake_of(user).amount >= 500 ==> s.multiplier_of(user) == 200,
        100 <= s.stake_of(user).amount < 500 ==> s.multiplier_of(user) == 120,
        s.stake_of(user).amount < 100 ==> s.multiplier_of(user) == 100,
{
}

/// The lock time plays no part in the multiplier: two vaults in which a
/// user has the same staked amount give that user the same multiplier.
pub proof fn law_multiplier_ignores_lock(s: StakeVaultView, t: StakeVaultView, user: Seq<u8>)
    requires
        s.stake_of(user).amount == t.stake_of(user).amount,
    ensures
        s.multiplier_of(user) == t.multiplier_of(user),
{
}

/// The grading by amount: 200 from 500 up, 120 from 100 up to 499, 100 below.
pub proof fn law_multiplier_thresholds(amount: int)
    ensures
        amount >= 500 ==> multiplier_spec(amount) == 200,
        100 <= amount < 500 ==> multiplier_spec(amount) == 120,
        amount < 100 ==> multiplier_spec(amount) == 100,
{
}

/// The protocol admin is installed once: after a successful `initialize`,
/// every further `initialize` is refused with `AlreadyInitialized`, and from
/// then on exactly that admin may upgrade the code.
pub proof fn law_vault_initialize_once(s: StakeVaultView, t: StakeVaultView, admin: Seq<u8>, other: Seq<u8>)
    requires
        s.initialize(admin) == Ok::<StakeVaultView, VaultError>(t),
    ensures
        t.initialize(other) == Err::<StakeVaultView, VaultError>(VaultError::AlreadyInitialized),
        t.upgrade_allowed(admin) is Ok,
        other != admin ==> t.upgrade_allowed(other) == Err::<(), VaultError>(VaultError::Unauthorized),
        s.upgrade_allowed(other) == Err::<(), VaultError>(VaultError::NotInitialized),
{
}

/// Installing the protocol admin succeeds exactly on a vault without one,
/// and then stores that admin and leaves the stakes as they were.
pub proof fn law_vault_initialize_outcome(s: StakeVaultView, admin: Seq<u8>)
    ensures
        s.admin is None ==> s.initialize(admin) == Ok::<StakeVaultView, VaultError>(StakeVaultView { admin: Some(admin), stakes: s.stakes }),
        s.admin is Some ==> s.initialize(admin) == Err::<StakeVaultView, VaultError>(VaultError::AlreadyInitialized),
{
}

/// An upgrade is allowed exactly for the installed protocol admin; without
/// an admin it is refused with `NotInitialized`, for anyone else with
/// `Unauthorized`.
pub proof fn law_upgrade_outcome(s: StakeVaultView, admin: Seq<u8>)
    ensures
        s.admin == Some(admin) ==> s.upgrade_allowed(admin) == Ok::<(), VaultError>(()),
        s.admin is None ==> s.upgrade_allowed(admin) == Err::<(), VaultError>(VaultError::NotInitialized),
        (s.admin is Some && s.admin != Some(admin)) ==> s.upgrade_allowed(admin) == Err::<(), VaultError>(VaultError::Unauthorized),
{
}

/// The vault's state.
pub struct StakeVault {
    admin: Option<Address>,
    stakes: AddressTable<StakeInfo>,
}

impl View for StakeVault {
    type V = StakeVaultView;

    closed spec fn view(&self) -> StakeVaultView {
        StakeVaultView { admin: opt_view(self.admin), stakes: self.stakes@ }
    }
}

impl StakeVault {
    /// The state's internal invariant: one stake per user.
    pub closed spec fn wf(&self) -> bool {
        self.stakes.wf()
    }

    /// A freshly deployed vault: no admin, no stakes.
    pub fn new() -> (v: Self)
        ensures
            v.wf(),
            v@.admin is None,
            v@.stakes == Map::<Seq<u8>, StakeInfo>::empty(),
    {
        StakeVault { admin: None, stakes: AddressTable::new() }
    }

    /// Installs `admin` as the protocol admin; refused once one is installed.
    pub fn initialize(&mut self, admin: Address) -> (r: Result<(), VaultError>)
        requires
            old(self).wf(),
        ensures
            final(self).wf(),
            old(self)@.initialize(admin@) == (match r {
                Ok(_) => Ok(final(self)@),
                Err(e) => Err::<StakeVaultView, VaultError>(e),
            }),
            r is Err ==> final(self)@ == old(self)@,
    {
        if install_admin(&mut self.admin, admin) {
            Ok(())
        } else {
            Err(VaultError::AlreadyInitialized)
        }
    }

    /// Stores `info` as the stake of `user`.
    pub fn set_stake(&mut self, user: Address, info: StakeInfo)
        requires
            old(self).wf(),
        ensures
            final(self).wf(),
            final(self)@.admin == old(self)@.admin,
            final(self)@.stakes == old(self)@.stakes.insert(user@, info),
    {
        self.stakes.insert(user, info);
    }

    /// The stake of `user`; nothing staked where nothing is stored.
    pub fn get_stake(&self, user: &Address) -> (r: StakeInfo)
        requires
            self.wf(),
        ensures
            r == self@.stake_of(user@),
    {
        match self.stakes.get(user) {
            Some(info) => *info,
            None => StakeInfo { amount: 0, lock_timestamp: 0 },
        }
    }

    /// The reward multiplier, in basis points, that the stake of `user` earns.
    pub fn get_multiplier(&self, user: &Address) -> (m: u32)
        requires
            self.wf(),
        ensures
            m == self@.multiplier_of(user@),
            self@.stake_of(user@).amount >= 500 ==> m == 200,
            100 <= self@.stake_of(user@).amount < 500 ==> m == 120,
            self@.stake_of(user@).amount < 100 ==> m == 100,
    {
        let stake_info = self.get_stake(user);
        multiplier_for(&stake_info)
    }

    /// Lets `admin` upgrade the contract's code to `new_wasm_hash`: refused
    /// unless `admin` is the installed protocol admin. Returns the event to
    /// publish; the vault's state is unchanged.
    pub fn upgrade_contract(&self, admin: &Address, new_wasm_hash: [u8; 32]) -> (r: Result<ContractUpgraded, VaultError>)
        requires
            self.wf(),
        ensures
            self@.upgrade_allowed(admin@) == (match r {
                Ok(_) => Ok(()),
                Err(e) => Err::<(), VaultError>(e),
            }),
            r matches Ok(ev) ==> ev.admin@ == admin@ && ev.new_wasm_hash@ == new_wasm_hash@,
    {
        match authorize_upgrade(&self.admin, admin) {
            Err(e) => Err(e),
            Ok(()) => Ok(ContractUpgraded { admin: admin.clone(), new_wasm_hash }),
        }
    }
}

} // verus!
