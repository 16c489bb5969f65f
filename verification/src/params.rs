//! Arguments and responses of the minter's operations.
use vstd::prelude::*;

use crate::model::{RateLimits, RebalanceAction, ReserveConfig};

verus! {

/// Partial update of a reserve's configuration.  `None` keeps a field;
/// for the `Option<Option<_>>` fields `Some(None)` clears it and
/// `Some(Some(v))` sets it.
#[derive(Debug)]
pub struct UpdateReserveArg {
    /// The reserve to update.
    pub id: u64,
    /// New balance threshold.
    pub min_balance: Option<u64>,
    /// New target balance.
    pub target_balance: Option<u64>,
    /// New max balance (keep / clear / set).
    pub max_balance: Option<Option<u64>>,
    /// New max top-up per rebalance (keep / clear / set).
    pub max_topup_per_rebalance: Option<Option<u64>>,
    /// New lifetime minimum; it may only increase.
    pub lifetime_received_minimum: Option<u64>,
    /// New lifetime maximum (keep / clear / set).
    pub lifetime_received_maximum: Option<Option<u64>>,
    /// New rate limits (keep / clear / set).
    pub rate_limits: Option<Option<RateLimits>>,
    /// Enable or disable the reserve.
    pub enabled: Option<bool>,
    /// Allow or forbid manual top-ups.
    pub allow_manual_topup: Option<bool>,
    /// Allow or forbid automatic rebalancing.
    pub allow_auto_rebalance: Option<bool>,
    /// New description.
    pub purpose: Option<String>,
    /// New label.
    pub label: Option<String>,
}

/// Clears a stuck mint lock and optionally a pending idempotency key.
#[derive(Debug)]
pub struct ReleaseStuckMintArg {
    /// Reserve whose mint lock is released.
    pub reserve_id: u64,
    /// Key removed when it is still pending for `reserve_id`.
    pub idempotency_key: Option<String>,
}

/// An ad-hoc top-up of a reserve by a given amount.
#[derive(Debug)]
pub struct ManualTopupArg {
    /// The reserve to top up.
    pub reserve_id: u64,
    /// Exact amount to mint.
    pub amount: u64,
    /// Optional key for idempotent delivery.
    pub idempotency_key: Option<String>,
}

/// Result of a manual top-up.
#[derive(Debug, Clone, Copy, PartialEq, Eq)]
pub struct ManualTopupResponse {
    /// The reserve topped up.
    pub reserve_id: u64,
    /// Amount minted.
    pub minted_amount: u64,
    /// Ledger block of the mint.
    pub ledger_block_index: u64,
}

/// What a rebalance would do, without minting.
#[derive(Debug)]
pub struct PreviewRebalanceResponse {
    /// The reserve.
    pub reserve_id: u64,
    /// The action a rebalance would take.
    pub action: RebalanceAction,
    /// Current ledger balance of the reserve.
    pub current_balance: u64,
    /// Configured target balance.
    pub target_balance: u64,
    /// Shortfall relative to the target.
    pub cyclical_deficit: u64,
    /// Shortfall relative to the lifetime minimum.
    pub lifetime_deficit: u64,
    /// Amount that would be minted, after caps and rate limits.
    pub would_mint: u64,
    /// Remaining rate-limit budget; `None` without rate limits.
    pub rate_limit_budget: Option<u64>,
}

/// Read-only snapshot of a reserve.
#[derive(Debug)]
pub struct ReserveInfo {
    /// The reserve's id.
    pub id: u64,
    /// Its configuration.
    pub config: ReserveConfig,
    /// Total minted to it since creation.
    pub lifetime_minted: u64,
}

} // verus!
