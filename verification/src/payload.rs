//! What a payload is made of.
use alloy_consensus::Header;
use alloy_eips::eip4895::Withdrawal;
use alloy_primitives::{Address, Bytes, FixedBytes};
use op_alloy_consensus::{OpTxEnvelope, TxDeposit};
use op_alloy_genesis::{RollupConfig, SystemConfig};
use op_alloy_protocol::{L1BlockInfoTx, L2BlockInfo};
use op_alloy_rpc_types_engine::OptimismPayloadAttributes;
use vstd::prelude::*;

use crate::forks::{activates, active_at};
use crate::outside::{
    bytes_contents, ecotone_upgrade_tx, envelope_encoding, fjord_upgrade_tx, l1_info_calldata,
};

verus! {

/// The address of the account that collects the fees of the sequencer.
pub const SEQUENCER_FEE_VAULT_ADDRESS: [u8; 20] = [
    0x42, 0x00, 0x00, 0x00, 0x00, 0x00, 0x00, 0x00, 0x00, 0x00,
    0x00, 0x00, 0x00, 0x00, 0x00, 0x00, 0x00, 0x00, 0x00, 0x11,
];

/// The bytes of the hash that stands for a missing one.
pub const ZERO_HASH: [u8; 32] = [
    0, 0, 0, 0, 0, 0, 0, 0, 0, 0, 0, 0, 0, 0, 0, 0,
    0, 0, 0, 0, 0, 0, 0, 0, 0, 0, 0, 0, 0, 0, 0, 0,
];

/// What [`OptimismPayloadAttributes`] hold, with the encoded transactions as sequences of bytes.
#[verifier::ext_equal]
pub struct PayloadView {
    /// The time of the block.
    pub timestamp: int,
    /// The randomness of the block.
    pub prev_randao: FixedBytes<32>,
    /// Who collects the fees of the block.
    pub suggested_fee_recipient: Address,
    /// The withdrawals of the block.
    pub withdrawals: Option<Seq<Withdrawal>>,
    /// The root of the parent beacon block.
    pub parent_beacon_block_root: Option<FixedBytes<32>>,
    /// The transactions that are forced into the block.
    pub transactions: Option<Seq<Seq<u8>>>,
    /// Whether the block has no other transactions.
    pub no_tx_pool: Option<bool>,
    /// The gas limit of the block.
    pub gas_limit: Option<u64>,
}

/// The bytes of encoded transactions.
pub open spec fn contents(transactions: Seq<Bytes>) -> Seq<Seq<u8>> {
    transactions.map_values(|tx: Bytes| bytes_contents(tx))
}

/// What payload attributes hold.
pub open spec fn payload_view(attributes: OptimismPayloadAttributes) -> PayloadView {
    PayloadView {
        timestamp: attributes.payload_attributes.timestamp as int,
        prev_randao: attributes.payload_attributes.prev_randao,
        suggested_fee_recipient: attributes.payload_attributes.suggested_fee_recipient,
        withdrawals: match attributes.payload_attributes.withdrawals {
            Some(withdrawals) => Some(withdrawals@),
            None => None,
        },
        parent_beacon_block_root: attributes.payload_attributes.parent_beacon_block_root,
        transactions: match attributes.transactions {
            Some(transactions) => Some(contents(transactions@)),
            None => None,
        },
        no_tx_pool: attributes.no_tx_pool,
        gas_limit: attributes.gas_limit,
    }
}

/// The time of the L2 block on top of `l2_parent`.
pub open spec fn next_l2_time(config: RollupConfig, l2_parent: L2BlockInfo) -> int {
    l2_parent.block_info.timestamp + config.block_time
}

/// The transactions that upgrade the rollup in the block at `timestamp`, whose parent is at
/// `parent_timestamp`: those of each upgrade that becomes active there, Ecotone before Fjord.
pub open spec fn upgrades(
    config: RollupConfig,
    parent_timestamp: int,
    timestamp: int,
) -> Seq<Seq<u8>> {
    let ecotone = if activates(config.ecotone_time, parent_timestamp, timestamp) {
        Seq::new(6, |i: int| ecotone_upgrade_tx(i))
    } else {
        Seq::empty()
    };
    let fjord = if activates(config.fjord_time, parent_timestamp, timestamp) {
        Seq::new(3, |i: int| fjord_upgrade_tx(i))
    } else {
        Seq::empty()
    };
    ecotone + fjord
}

/// The transaction that carries an L1 info: the given one, with the info as its calldata if it is
/// a deposit.
pub open spec fn carrying(envelope: OpTxEnvelope, l1_info: L1BlockInfoTx) -> OpTxEnvelope {
    match envelope {
        OpTxEnvelope::Deposit(deposit) => OpTxEnvelope::Deposit(
            TxDeposit { input: l1_info_calldata(l1_info), ..deposit },
        ),
        _ => envelope,
    }
}

/// The deposits that are included in a block, none if it does not begin an epoch.
pub open spec fn included(deposits: Option<Seq<Seq<u8>>>) -> Seq<Seq<u8>> {
    match deposits {
        Some(deposits) => deposits,
        None => Seq::empty(),
    }
}

/// The payload of the L2 block on top of `l2_parent`.
pub open spec fn payload(
    config: RollupConfig,
    l2_parent: L2BlockInfo,
    sys_config: SystemConfig,
    l1_header: Header,
    deposits: Option<Seq<Seq<u8>>>,
    l1_info: L1BlockInfoTx,
    envelope: OpTxEnvelope,
) -> PayloadView {
    let time = next_l2_time(config, l2_parent);
    PayloadView {
        timestamp: time,
        prev_randao: l1_header.mix_hash,
        suggested_fee_recipient: Address(FixedBytes(SEQUENCER_FEE_VAULT_ADDRESS)),
        withdrawals: if active_at(config.canyon_time, time) {
            Some(Seq::empty())
        } else {
            None
        },
        parent_beacon_block_root: if !active_at(config.ecotone_time, time) {
            None
        } else if l1_header.parent_beacon_block_root is Some {
            l1_header.parent_beacon_block_root
        } else {
            Some(FixedBytes(ZERO_HASH))
        },
        transactions: Some(
            seq![envelope_encoding(carrying(envelope, l1_info))] + included(deposits) + upgrades(
                config,
                l2_parent.block_info.timestamp as int,
                time,
            ),
        ),
        no_tx_pool: Some(true),
        gas_limit: Some(sys_config.gas_limit),
    }
}

} // verus!
