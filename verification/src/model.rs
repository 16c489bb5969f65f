//! Data types of the minter: reserve configuration and records, policy,
//! idempotency records, errors and rebalance outcomes.
//!
//! Token amounts, balances and block indices are `u64` values (the amount
//! type of an ICRC-1 ledger); sums of many amounts are `u128`.
use vstd::prelude::*;

use candid::Principal;

use crate::outside::{accounts_equal, effective_subaccount};

verus! {

// ---------------------------------------------------------------------------
// Install / upgrade argument
// ---------------------------------------------------------------------------

/// Argument of a first installation: the ledger to mint on.
#[derive(Clone, Copy, Debug)]
pub struct InitArg {
    /// Principal of the ledger.
    pub ledger_id: Principal,
}

/// Argument of installation and upgrade.
#[derive(Clone, Copy, Debug)]
pub enum Arg {
    /// Fresh installation with its configuration.
    Init(InitArg),
    /// Upgrade: the state is restored from stable memory.
    Upgrade,
}

// ---------------------------------------------------------------------------
// Accounts
// ---------------------------------------------------------------------------

/// An ICRC-1 account: an owner principal and an optional 32-byte subaccount.
#[derive(Clone, Copy, Debug)]
pub struct ReserveAccount {
    /// The principal that owns the account.
    pub owner: Principal,
    /// The subaccount; `None` stands for the all-zero subaccount.
    pub subaccount: Option<[u8; 32]>,
}

/// Two accounts denote the same ledger account: same owner and same
/// effective subaccount.
pub open spec fn same_account(a: ReserveAccount, b: ReserveAccount) -> bool {
    a.owner == b.owner && effective_subaccount(a.subaccount) == effective_subaccount(b.subaccount)
}

impl ReserveAccount {
    /// Whether `self` and `other` denote the same ledger account.
    pub fn same_as(&self, other: &ReserveAccount) -> (r: bool)
        ensures
            r == same_account(*self, *other),
    {
        accounts_equal(self.owner, self.subaccount, other.owner, other.subaccount)
    }
}

// ---------------------------------------------------------------------------
// Rate limits
// ---------------------------------------------------------------------------

/// Per-reserve caps on the amount minted within sliding time windows.
#[derive(Clone, Copy, Debug)]
pub struct RateLimits {
    /// Maximum total amount mintable in any rolling 1-hour window.
    pub max_amount_per_hour: Option<u64>,
    /// Maximum total amount mintable in any rolling 24-hour window.
    pub max_amount_per_day: Option<u64>,
    /// Maximum total amount mintable in any rolling 7-day window.
    pub max_amount_per_week: Option<u64>,
    /// Maximum total amount mintable in any rolling 30-day window.
    pub max_amount_per_month: Option<u64>,
    /// Maximum total amount mintable in any rolling 365-day window.
    pub max_amount_per_year: Option<u64>,
}

/// A recorded mint, used for rate-limit accounting.
#[derive(Clone, Copy, Debug)]
pub struct MintEvent {
    /// Time of the mint, in nanoseconds.
    pub timestamp_ns: u64,
    /// Amount minted.
    pub amount: u64,
}

// ---------------------------------------------------------------------------
// Reserve configuration and records
// ---------------------------------------------------------------------------

/// Full configuration of a reserve.
#[derive(Debug)]
pub struct ReserveConfig {
    /// The ledger account that holds the reserve's tokens.
    pub account: ReserveAccount,
    /// Balance threshold below which a rebalance is due.
    pub min_balance: u64,
    /// Balance that a rebalance restores.
    pub target_balance: u64,
    /// Upper bound on the balance that minting may reach.
    pub max_balance: Option<u64>,
    /// Cap on the amount of one rebalance.
    pub max_topup_per_rebalance: Option<u64>,
    /// Guaranteed minimum total ever minted to the reserve.
    pub lifetime_received_minimum: Option<u64>,
    /// Cap on the total ever minted to the reserve.
    pub lifetime_received_maximum: Option<u64>,
    /// Sliding-window caps.
    pub rate_limits: Option<RateLimits>,
    /// Whether the reserve is active.
    pub enabled: bool,
    /// Whether manual top-ups are allowed.
    pub allow_manual_topup: bool,
    /// Whether automatic rebalancing is allowed.
    pub allow_auto_rebalance: bool,
    /// Free-form description.
    pub purpose: String,
    /// Short human-readable name.
    pub label: String,
}

impl Clone for ReserveConfig {
    fn clone(&self) -> (r: Self)
        ensures
            r == *self,
    {
        ReserveConfig {
            account: self.account,
            min_balance: self.min_balance,
            target_balance: self.target_balance,
            max_balance: self.max_balance,
            max_topup_per_rebalance: self.max_topup_per_rebalance,
            lifetime_received_minimum: self.lifetime_received_minimum,
            lifetime_received_maximum: self.lifetime_received_maximum,
            rate_limits: self.rate_limits,
            enabled: self.enabled,
            allow_manual_topup: self.allow_manual_topup,
            allow_auto_rebalance: self.allow_auto_rebalance,
            purpose: self.purpose.clone(),
            label: self.label.clone(),
        }
    }
}

/// A stored reserve: its configuration and its minting history.
#[derive(Debug)]
pub struct ReserveRecord {
    /// The configuration.
    pub config: ReserveConfig,
    /// Total minted to the reserve since it was created.
    pub lifetime_minted: u64,
    /// Recent mints (at most a year old after every mint).
    pub mint_events: Vec<MintEvent>,
}

/// Arguments for registering a new reserve; the minter assigns the id.
#[derive(Debug)]
pub struct AddReserveArg {
    /// The ledger account of the new reserve.
    pub account: ReserveAccount,
    /// Balance threshold below which a rebalance is due.
    pub min_balance: u64,
    /// Balance that a rebalance restores.
    pub target_balance: u64,
    /// Upper bound on the balance that minting may reach.
    pub max_balance: Option<u64>,
    /// Cap on the amount of one rebalance.
    pub max_topup_per_rebalance: Option<u64>,
    /// Guaranteed minimum total ever minted to the reserve.
    pub lifetime_received_minimum: Option<u64>,
    /// Cap on the total ever minted to the reserve.
    pub lifetime_received_maximum: Option<u64>,
    /// Sliding-window caps.
    pub rate_limits: Option<RateLimits>,
    /// Whether the reserve starts active.
    pub enabled: bool,
    /// Whether manual top-ups are allowed.
    pub allow_manual_topup: bool,
    /// Whether automatic rebalancing is allowed.
    pub allow_auto_rebalance: bool,
    /// Free-form description.
    pub purpose: String,
    /// Short human-readable name.
    pub label: String,
}

// ---------------------------------------------------------------------------
// Global policy
// ---------------------------------------------------------------------------

/// Canister-wide minting policy.
#[derive(Clone, Copy, Debug)]
pub struct GlobalPolicy {
    /// Master switch: when `false`, every mint is refused.
    pub minting_enabled: bool,
    /// Cap on the amount of any single mint.
    pub max_mint_per_operation: Option<u64>,
}

impl Default for GlobalPolicy {
    fn default() -> (r: Self)
        ensures
            r.minting_enabled,
            r.max_mint_per_operation is None,
    {
        GlobalPolicy { minting_enabled: true, max_mint_per_operation: None }
    }
}

// ---------------------------------------------------------------------------
// Idempotency
// ---------------------------------------------------------------------------

/// Result of a completed manual top-up, replayed for a repeated key.
#[derive(Clone, Copy, Debug)]
pub struct IdempotencyEntry {
    /// Ledger block index of the mint.
    pub ledger_block_index: u64,
    /// Amount minted.
    pub minted_amount: u64,
    /// Reserve that received the tokens.
    pub reserve_id: u64,
    /// Time of the mint, in nanoseconds.
    pub executed_at_ns: u64,
}

/// State of an idempotency key: a mint in progress, or a completed mint.
#[derive(Clone, Copy, Debug)]
pub enum IdempotencyRecord {
    /// A mint with this key is in progress for the given reserve.
    Pending { reserve_id: u64 },
    /// The mint finished; replays return this entry.
    Completed(IdempotencyEntry),
}

// ---------------------------------------------------------------------------
// Errors
// ---------------------------------------------------------------------------

/// Errors of the minter's operations.
#[derive(Debug)]
pub enum MinterError {
    /// Part of the interface; authorization is decided by the guards.
    NotAuthorized,
    /// No reserve exists with the given id.
    ReserveNotFound { id: u64 },
    /// A reserve with this account is already registered.
    ReserveAccountAlreadyExists { account: ReserveAccount },
    /// The global policy has minting disabled.
    MintingDisabled,
    /// The reserve is disabled.
    ReserveDisabled { id: u64 },
    /// Manual top-ups are not allowed for this reserve.
    ManualTopupNotAllowed { id: u64 },
    /// Auto-rebalancing is not allowed for this reserve.
    AutoRebalanceNotAllowed { id: u64 },
    /// The amount exceeds the per-operation cap or the lifetime maximum.
    AmountExceedsLimit { requested: u64, limit: u64 },
    /// The mint would exceed a sliding-window cap.
    RateLimitExceeded { window: String, limit: u64, current_usage: u128, requested: u64 },
    /// The configuration is invalid.
    InvalidConfig { reason: String },
    /// The ledger call failed.
    LedgerError { message: String },
    /// Part of the interface; completed keys are replayed instead.
    IdempotencyKeyAlreadyUsed { key: String, existing_block_index: u64 },
    /// Another operation is minting to this reserve.
    ReserveOperationInProgress { id: u64 },
    /// A mint with this idempotency key has not finished.
    IdempotencyOperationInProgress { key: String },
    /// An internal consistency check failed.
    InternalInvariantViolated { reason: String },
}

/// The error is `InvalidConfig` with the given reason.
pub open spec fn is_invalid_config(e: MinterError, reason: Seq<char>) -> bool {
    e matches MinterError::InvalidConfig { reason: r } && r@ == reason
}

// ---------------------------------------------------------------------------
// Rebalance outcomes
// ---------------------------------------------------------------------------

/// What a rebalance did (or would do).
#[derive(Debug, PartialEq, Eq)]
pub enum RebalanceAction {
    /// Tokens were (or would be) minted.
    Minted,
    /// The reserve already meets its target and its lifetime minimum.
    AlreadyFunded,
    /// Nothing was minted, for the stated reason.
    Skipped { reason: String },
}

/// Mathematical form of a [`RebalanceAction`].
pub enum RebalanceActionView {
    Minted,
    AlreadyFunded,
    Skipped { reason: Seq<char> },
}

impl View for RebalanceAction {
    type V = RebalanceActionView;

    open spec fn view(&self) -> RebalanceActionView {
        match self {
            RebalanceAction::Minted => RebalanceActionView::Minted,
            RebalanceAction::AlreadyFunded => RebalanceActionView::AlreadyFunded,
            RebalanceAction::Skipped { reason } => RebalanceActionView::Skipped { reason: reason@ },
        }
    }
}

/// Result of a rebalance on one reserve.
#[derive(Debug)]
pub struct RebalanceResponse {
    /// The reserve.
    pub reserve_id: u64,
    /// What happened.
    pub action: RebalanceAction,
    /// Balance of the reserve's account before the rebalance.
    pub balance_before: u64,
    /// Amount minted (0 when nothing was minted).
    pub minted_amount: u64,
    /// Ledger block of the mint, if any.
    pub ledger_block_index: Option<u64>,
}

/// Result of [`crate::reserve::compute_rebalance`]: the action, the amount
/// to mint and the two deficits it was derived from.
#[derive(Debug)]
pub struct ComputedRebalance {
    /// The action.
    pub action: RebalanceAction,
    /// Amount to mint (0 unless the action is `Minted`).
    pub mint_amount: u64,
    /// Shortfall of the balance relative to the target.
    pub cyclical_deficit: u64,
    /// Shortfall of the lifetime total relative to the lifetime minimum.
    pub lifetime_deficit: u64,
}

/// Mathematical form of a [`ComputedRebalance`].
pub struct ComputedRebalanceView {
    pub action: RebalanceActionView,
    pub mint_amount: u64,
    pub cyclical_deficit: u64,
    pub lifetime_deficit: u64,
}

impl View for ComputedRebalance {
    type V = ComputedRebalanceView;

    open spec fn view(&self) -> ComputedRebalanceView {
        ComputedRebalanceView {
            action: self.action@,
            mint_amount: self.mint_amount,
            cyclical_deficit: self.cyclical_deficit,
            lifetime_deficit: self.lifetime_deficit,
        }
    }
}

} // verus!
