//! The records that the pool keeps and hands out.

use crate::decimal::Decimal;
use std::collections::HashMap;
use vstd::prelude::*;

verus! {

/// The identifier of an asset: the 30 bytes of its address.
#[derive(Clone, Copy, Debug, PartialEq, Eq)]
pub struct ResourceAddress {
    pub bytes: [u8; 30],
}

impl View for ResourceAddress {
    type V = Seq<u8>;

    open spec fn view(&self) -> Seq<u8> {
        self.bytes@
    }
}

impl ResourceAddress {
    /// Whether two addresses name the same asset.
    pub fn same_as(&self, other: &ResourceAddress) -> (r: bool)
        ensures
            r == (self@ == other@),
            r == (*self == *other),
    {
        let mut i: usize = 0;
        while i < 30
            invariant
                i <= 30,
                forall|j: int| 0 <= j < i ==> self.bytes@[j] == other.bytes@[j],
            decreases 30 - i,
        {
            if self.bytes[i] != other.bytes[i] {
                return false;
            }
            i += 1;
        }
        assert(self.bytes@ =~= other.bytes@);
        assert(self.bytes == other.bytes);
        true
    }
}

/// Aggregate of the positions opened in one checkpoint, which share a
/// maturity date.
#[derive(Clone, Copy, Debug, PartialEq, Eq, Structural)]
pub struct Checkpoint {
    /// Start of the time bucket; also the checkpoint's id.
    pub start_time: u64,
    /// Share price when the checkpoint was minted.
    pub share_price: Decimal,
    /// Face value of the longs outstanding.
    pub long_positions: Decimal,
    /// Face value of the shorts outstanding.
    pub short_positions: Decimal,
    /// Average maturity of the longs, weighted by face value.
    pub avg_long_maturity: Decimal,
    /// Average maturity of the shorts, weighted by face value.
    pub avg_short_maturity: Decimal,
    pub is_minted: bool,
}

/// A checkpoint with each amount as its number of units.
pub struct CheckpointView {
    pub start_time: u64,
    pub share_price: int,
    pub long_positions: int,
    pub short_positions: int,
    pub avg_long_maturity: int,
    pub avg_short_maturity: int,
    pub is_minted: bool,
}

impl View for Checkpoint {
    type V = CheckpointView;

    open spec fn view(&self) -> CheckpointView {
        CheckpointView {
            start_time: self.start_time,
            share_price: self.share_price@,
            long_positions: self.long_positions@,
            short_positions: self.short_positions@,
            avg_long_maturity: self.avg_long_maturity@,
            avg_short_maturity: self.avg_short_maturity@,
            is_minted: self.is_minted,
        }
    }
}

/// The ledger as a map from checkpoint id to the checkpoint's view.
pub open spec fn ledger_view(checkpoints: Map<u64, Checkpoint>) -> Map<u64, CheckpointView> {
    Map::new(|id: u64| checkpoints.contains_key(id), |id: u64| checkpoints[id]@)
}

/// The ledger's view holds a checkpoint exactly where the ledger holds one.
pub proof fn lemma_ledger_view_keys(checkpoints: Map<u64, Checkpoint>, id: u64)
    ensures
        ledger_view(checkpoints).contains_key(id) == checkpoints.contains_key(id),
        checkpoints.contains_key(id) ==> ledger_view(checkpoints)[id] == checkpoints[id]@,
{
}

/// The pool as an outside query sees it.
#[derive(Clone, Copy, Debug, PartialEq, Eq, Structural)]
pub struct PoolState {
    pub share_reserves: Decimal,
    pub bond_reserves: Decimal,
    pub zeta_adjustment: Decimal,
    /// Share reserves less the zeta adjustment.
    pub effective_share_reserves: Decimal,
    pub share_price: Decimal,
    pub spot_rate: Decimal,
    /// Liquidity shares outstanding.
    pub active_lp_shares_address: Decimal,
    /// Withdrawal shares outstanding.
    pub withdrawal_shares_address: Decimal,
    /// Withdrawal shares ready to be redeemed.
    pub ready_withdrawal_shares_address: Decimal,
    pub zombie_share_reserves: Decimal,
    pub zombie_base_reserves: Decimal,
    pub current_checkpoint: u64,
}

/// The record of an open long.
#[derive(Clone, Copy, Debug, PartialEq, Eq, Structural)]
pub struct LongPosition {
    pub face_value: Decimal,
    /// Checkpoint the position was opened under.
    pub checkpoint: u64,
    pub open_time: u64,
    pub maturity_time: u64,
}

/// The record of an open short.
#[derive(Clone, Copy, Debug, PartialEq, Eq, Structural)]
pub struct ShortPosition {
    pub face_value: Decimal,
    /// Checkpoint the position was opened under.
    pub checkpoint: u64,
    pub open_time: u64,
    pub maturity_time: u64,
    /// Share price when the position was opened.
    pub initial_share_price: Decimal,
}

/// Everything one pool holds, each vault given by the amount in it.
pub struct HyperdrivePoolData {
    pub share_reserves: Decimal,
    pub bond_reserves: Decimal,
    pub zeta_adjustment: Decimal,
    pub share_price: Decimal,
    pub bond_resource_address: ResourceAddress,
    pub active_lp_shares_address: ResourceAddress,
    pub withdrawal_shares_address: ResourceAddress,
    pub ready_withdrawal_shares_address: ResourceAddress,
    pub long_positions_resource: ResourceAddress,
    pub short_positions_resource: ResourceAddress,
    pub checkpoints: HashMap<u64, Checkpoint>,
    pub checkpoint_duration: u64,
    pub position_duration: u64,
    pub current_checkpoint: u64,
    pub new_bond_fee: Decimal,
    pub matured_bond_fee: Decimal,
    pub governance_fee: Decimal,
    pub zombie_governance_fee: Decimal,
    pub min_share_reserves: Decimal,
    pub zombie_share_reserves: Decimal,
    pub zombie_base_reserves: Decimal,
    pub yield_source_vault: Decimal,
    pub bond_vault: Decimal,
    pub active_lp_vault: Decimal,
    pub withdrawal_vault: Decimal,
    pub ready_withdrawal_vault: Decimal,
    pub governance_vault: Decimal,
    pub minter_badge: Decimal,
}

} // verus!
