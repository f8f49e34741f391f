//! Settings of the payload builder and the rule that bounds the gas limit of
//! the next block.

use vstd::prelude::*;

verus! {

/// The gas limit of a block may differ from its parent's by less than the
/// parent's limit divided by this number.
pub const GAS_LIMIT_BOUND_DIVISOR: u64 = 1024;

/// The largest distance, in gas, between a parent's gas limit and its child's:
/// one less than the parent's limit divided by the bound divisor, and never
/// below zero.
pub open spec fn gas_limit_delta(parent_gas_limit: u64) -> int {
    let step = parent_gas_limit as int / GAS_LIMIT_BOUND_DIVISOR as int;
    if step >= 1 {
        step - 1
    } else {
        0
    }
}

/// The smallest gas limit that a child of a block with `parent_gas_limit` may have.
pub open spec fn min_gas_limit(parent_gas_limit: u64) -> int {
    parent_gas_limit - gas_limit_delta(parent_gas_limit)
}

/// The largest gas limit that a child of a block with `parent_gas_limit` may have.
/// It is a mathematical integer and may lie above `u64::MAX`.
pub open spec fn max_gas_limit(parent_gas_limit: u64) -> int {
    parent_gas_limit + gas_limit_delta(parent_gas_limit)
}

/// The gas limit of the next block: `desired_gas_limit`, moved into the
/// interval from `min_gas_limit` to `max_gas_limit` of the parent.
pub open spec fn next_gas_limit(parent_gas_limit: u64, desired_gas_limit: u64) -> int {
    if desired_gas_limit < min_gas_limit(parent_gas_limit) {
        min_gas_limit(parent_gas_limit)
    } else if desired_gas_limit > max_gas_limit(parent_gas_limit) {
        max_gas_limit(parent_gas_limit)
    } else {
        desired_gas_limit as int
    }
}

/// Calculate the gas limit for the next block based on parent and desired gas limits.
///
/// Total on `u64`: where the upper bound lies above `u64::MAX` no desired
/// limit can exceed it, so only the lower bound applies.
pub fn calculate_block_gas_limit(parent_gas_limit: u64, desired_gas_limit: u64) -> (limit: u64)
    ensures
        limit == next_gas_limit(parent_gas_limit, desired_gas_limit),
        min_gas_limit(parent_gas_limit) <= limit <= max_gas_limit(parent_gas_limit),
        min_gas_limit(parent_gas_limit) <= desired_gas_limit <= max_gas_limit(parent_gas_limit)
            ==> limit == desired_gas_limit,
{
    let delta: u64 = (parent_gas_limit / GAS_LIMIT_BOUND_DIVISOR).saturating_sub(1);
    let min_gas_limit: u64 = parent_gas_limit - delta;
    let max_gas_limit: u64 = parent_gas_limit.saturating_add(delta);
    if desired_gas_limit < min_gas_limit {
        min_gas_limit
    } else if desired_gas_limit > max_gas_limit {
        max_gas_limit
    } else {
        desired_gas_limit
    }
}

/// The next gas limit lies within the bound around the parent's limit,
/// whatever limit is desired, and fits in a `u64`.
pub proof fn lemma_next_gas_limit_within_bound(parent_gas_limit: u64, desired_gas_limit: u64)
    ensures
        min_gas_limit(parent_gas_limit) <= next_gas_limit(parent_gas_limit, desired_gas_limit)
            <= max_gas_limit(parent_gas_limit),
        0 <= min_gas_limit(parent_gas_limit) <= parent_gas_limit <= max_gas_limit(parent_gas_limit),
        0 <= next_gas_limit(parent_gas_limit, desired_gas_limit) <= u64::MAX,
{
}

/// A desired gas limit that lies within the bound around the parent's limit
/// is the next gas limit, unchanged.
pub proof fn lemma_next_gas_limit_keeps_desired_within_bound(
    parent_gas_limit: u64,
    desired_gas_limit: u64,
)
    requires
        min_gas_limit(parent_gas_limit) <= desired_gas_limit <= max_gas_limit(parent_gas_limit),
    ensures
        next_gas_limit(parent_gas_limit, desired_gas_limit) == desired_gas_limit,
{
}

/// Applying the rule to its own result changes nothing: the next gas limit,
/// taken as the desired one, is kept.
pub proof fn lemma_next_gas_limit_idempotent(parent_gas_limit: u64, desired_gas_limit: u64)
    ensures
        next_gas_limit(
            parent_gas_limit,
            next_gas_limit(parent_gas_limit, desired_gas_limit) as u64,
        ) == next_gas_limit(parent_gas_limit, desired_gas_limit),
{
}

/// Once the desired gas limit has reached the upper bound, raising it further
/// changes nothing: the next gas limit stays at the upper bound.
pub proof fn lemma_next_gas_limit_stops_at_upper_bound(
    parent_gas_limit: u64,
    desired_gas_limit: u64,
    higher_gas_limit: u64,
)
    requires
        max_gas_limit(parent_gas_limit) <= desired_gas_limit <= higher_gas_limit,
    ensures
        next_gas_limit(parent_gas_limit, desired_gas_limit) == max_gas_limit(parent_gas_limit),
        next_gas_limit(parent_gas_limit, higher_gas_limit) == max_gas_limit(parent_gas_limit),
{
}

/// The next gas limit never falls when the desired gas limit rises.
pub proof fn lemma_next_gas_limit_monotonic(
    parent_gas_limit: u64,
    desired_gas_limit: u64,
    higher_gas_limit: u64,
)
    requires
        desired_gas_limit <= higher_gas_limit,
    ensures
        next_gas_limit(parent_gas_limit, desired_gas_limit) <= next_gas_limit(
            parent_gas_limit,
            higher_gas_limit,
        ),
{
}

/// Settings for the Ethereum builder.
#[derive(PartialEq, Eq, Structural, Clone, Copy, Debug)]
pub struct EthereumBuilderConfig {
    /// Desired gas limit.
    pub desired_gas_limit: u64,
    /// Waits for the first payload to be built if there is no payload built when the payload is
    /// being resolved.
    pub await_payload_on_missing: bool,
}

/// Reads the constant `alloy_eips::eip1559::ETHEREUM_BLOCK_GAS_LIMIT_30M`.
/// Trusted: its value is thirty million gas.
#[verifier::external_body]
fn ethereum_block_gas_limit_30m() -> (limit: u64)
    ensures
        limit == 30_000_000,
{
    alloy_eips::eip1559::ETHEREUM_BLOCK_GAS_LIMIT_30M
}

impl Default for EthereumBuilderConfig {
    fn default() -> (config: Self)
        ensures
            config.desired_gas_limit == 30_000_000,
            config.await_payload_on_missing,
    {
        Self::new()
    }
}

impl EthereumBuilderConfig {
    /// Create new payload builder config: thirty million gas desired, and the
    /// first payload awaited.
    pub fn new() -> (config: Self)
        ensures
            config.desired_gas_limit == 30_000_000,
            config.await_payload_on_missing,
    {
        Self { desired_gas_limit: ethereum_block_gas_limit_30m(), await_payload_on_missing: true }
    }

    /// Set desired gas limit.
    pub fn with_gas_limit(self, desired_gas_limit: u64) -> (config: Self)
        ensures
            config.desired_gas_limit == desired_gas_limit,
            config.await_payload_on_missing == self.await_payload_on_missing,
    {
        Self { desired_gas_limit, await_payload_on_missing: self.await_payload_on_missing }
    }

    /// Configures whether the initial payload should be awaited when the payload job is being
    /// resolved and no payload has been built yet.
    pub fn with_await_payload_on_missing(self, await_payload_on_missing: bool) -> (config: Self)
        ensures
            config.desired_gas_limit == self.desired_gas_limit,
            config.await_payload_on_missing == await_payload_on_missing,
    {
        Self { desired_gas_limit: self.desired_gas_limit, await_payload_on_missing }
    }

    /// Returns the gas limit for the next block based
    /// on parent and desired gas limits.
    pub fn gas_limit(&self, parent_gas_limit: u64) -> (limit: u64)
        ensures
            limit == next_gas_limit(parent_gas_limit, self.desired_gas_limit),
            min_gas_limit(parent_gas_limit) <= limit <= max_gas_limit(parent_gas_limit),
            min_gas_limit(parent_gas_limit) <= self.desired_gas_limit <= max_gas_limit(
                parent_gas_limit,
            ) ==> limit == self.desired_gas_limit,
    {
        calculate_block_gas_limit(parent_gas_limit, self.desired_gas_limit)
    }
}

} // verus!
