//! The crates of the Ethereum and OP Stack ecosystem that the builder works with: their types,
//! and what the builder relies on of their functions.
//!
//! A type that is declared with its public fields is read by Verus as it is defined, so contracts
//! speak of its fields. A type that is declared opaque is carried through, and what it holds is
//! known only through the functions of this module. Nothing here is proved: each item states what
//! the documentation or the source of the function that it names shows.
use alloy_consensus::{Header, Receipt, Transaction, TxEnvelope};
use alloy_eips::eip2718::Encodable2718;
use alloy_primitives::{Bytes, FixedBytes, Log, LogData};
use op_alloy_consensus::{Hardforks, OpTxEnvelope};
use op_alloy_genesis::{RollupConfig, SystemConfig, SystemConfigUpdateError};
use op_alloy_protocol::block_info::BlockInfoError;
use op_alloy_protocol::L1BlockInfoTx;
use vstd::prelude::*;

use crate::forks::{active_at, ecotone_info};
use crate::receipts::{gas_limits_fit, no_log_from, updates_well_formed};

verus! {

/// The blob fee of an L1 block is an exponential in its excess blob gas that is computed in 128
/// bits. This is the largest excess blob gas for which no intermediate product overflows.
pub const MAX_EXCESS_BLOB_GAS: u128 = 192_204_552;

// The types, declared with their public fields.

/// A byte string of fixed length; `B256` is the one of 32 bytes.
#[verifier::external_type_specification]
pub struct ExFixedBytes<const N: usize>(alloy_primitives::FixedBytes<N>);

/// An account address.
#[verifier::external_type_specification]
pub struct ExAddress(alloy_primitives::Address);

/// The bloom filter of a header.
#[verifier::external_type_specification]
pub struct ExBloom(alloy_primitives::Bloom);

/// A log: the address that emitted it, and its data.
#[verifier::external_type_specification]
pub struct ExLog<T>(alloy_primitives::Log<T>);

/// The recipient of a transaction.
#[verifier::external_type_specification]
pub struct ExTxKind(alloy_primitives::TxKind);

/// The number and the hash of a block.
#[verifier::external_type_specification]
pub struct ExBlockNumHash(alloy_eips::BlockNumHash);

/// The base fee parameters of a rollup config.
#[verifier::external_type_specification]
pub struct ExBaseFeeParams(alloy_eips::eip1559::BaseFeeParams);

/// A withdrawal from the beacon chain.
#[verifier::external_type_specification]
pub struct ExWithdrawal(alloy_eips::eip4895::Withdrawal);

/// An L1 block header.
#[verifier::external_type_specification]
pub struct ExHeader(alloy_consensus::Header);

/// The status of a receipt.
#[verifier::external_type_specification]
pub struct ExEip658Value(alloy_consensus::Eip658Value);

/// The receipt of an L1 transaction.
#[verifier::external_type_specification]
pub struct ExReceipt<T>(alloy_consensus::Receipt<T>);

/// A signed L1 transaction of any type.
#[verifier::external_type_specification]
pub struct ExTxEnvelope(alloy_consensus::TxEnvelope);

/// A deposit transaction.
#[verifier::external_type_specification]
pub struct ExTxDeposit(op_alloy_consensus::TxDeposit);

/// An L2 transaction of any type.
#[verifier::external_type_specification]
pub struct ExOpTxEnvelope(op_alloy_consensus::OpTxEnvelope);

/// The genesis of a rollup.
#[verifier::external_type_specification]
pub struct ExChainGenesis(op_alloy_genesis::ChainGenesis);

/// The system config of a rollup.
#[verifier::external_type_specification]
pub struct ExSystemConfig(op_alloy_genesis::SystemConfig);

/// The rollup config.
#[verifier::external_type_specification]
pub struct ExRollupConfig(op_alloy_genesis::RollupConfig);

/// The identity of a block, its parent's hash and its time.
#[verifier::external_type_specification]
pub struct ExBlockInfo(op_alloy_protocol::BlockInfo);

/// An L2 block with its L1 origin and its sequence number.
#[verifier::external_type_specification]
pub struct ExL2BlockInfo(op_alloy_protocol::L2BlockInfo);

/// What the L1 info transaction of an L2 block says.
#[verifier::external_type_specification]
pub struct ExL1BlockInfoTx(op_alloy_protocol::L1BlockInfoTx);

/// The Bedrock form of the L1 info.
#[verifier::external_type_specification]
pub struct ExL1BlockInfoBedrock(op_alloy_protocol::L1BlockInfoBedrock);

/// The Ecotone form of the L1 info.
#[verifier::external_type_specification]
pub struct ExL1BlockInfoEcotone(op_alloy_protocol::L1BlockInfoEcotone);

/// Why the L1 info could not be made.
#[verifier::external_type_specification]
pub struct ExBlockInfoError(op_alloy_protocol::block_info::BlockInfoError);

/// The payload attributes that every execution engine takes.
#[verifier::external_type_specification]
pub struct ExPayloadAttributes(alloy_rpc_types_engine::PayloadAttributes);

/// The payload attributes of an OP Stack engine.
#[verifier::external_type_specification]
pub struct ExOptimismPayloadAttributes(op_alloy_rpc_types_engine::OptimismPayloadAttributes);

// The types, declared opaque.

/// An unsigned integer of fixed width; `U256` is the one of 256 bits.
#[verifier::external_type_specification]
#[verifier::external_body]
pub struct ExUint<const BITS: usize, const LIMBS: usize>(alloy_primitives::Uint<BITS, LIMBS>);

/// A byte string of any length; [`bytes_contents`] is what it holds. It is nothing but its bytes:
/// where they are kept makes no difference.
#[verifier::external_type_specification]
#[verifier::external_body]
pub struct ExBytes(alloy_primitives::Bytes);

/// The topics and the data of a log; [`log_topics`] and [`log_data`] are what it holds.
#[verifier::external_type_specification]
#[verifier::external_body]
pub struct ExLogData(alloy_primitives::LogData);

/// A signature.
#[verifier::external_type_specification]
#[verifier::external_body]
pub struct ExSignature(alloy_primitives::Signature);

/// A transaction with its signature.
#[verifier::external_type_specification]
#[verifier::external_body]
#[verifier::reject_recursive_types(T)]
#[verifier::reject_recursive_types(Sig)]
pub struct ExSigned<T, Sig>(alloy_consensus::Signed<T, Sig>);

/// A legacy transaction.
#[verifier::external_type_specification]
#[verifier::external_body]
pub struct ExTxLegacy(alloy_consensus::TxLegacy);

/// A transaction with an access list.
#[verifier::external_type_specification]
#[verifier::external_body]
pub struct ExTxEip2930(alloy_consensus::TxEip2930);

/// A transaction with a fee cap.
#[verifier::external_type_specification]
#[verifier::external_body]
pub struct ExTxEip1559(alloy_consensus::TxEip1559);

/// A transaction with blobs.
#[verifier::external_type_specification]
#[verifier::external_body]
pub struct ExTxEip4844Variant(alloy_consensus::TxEip4844Variant);

/// A transaction with authorizations.
#[verifier::external_type_specification]
#[verifier::external_body]
pub struct ExTxEip7702(alloy_consensus::TxEip7702);

/// Why a system config could not be updated.
#[verifier::external_type_specification]
#[verifier::external_body]
pub struct ExSystemConfigUpdateError(op_alloy_genesis::SystemConfigUpdateError);

// Byte strings and logs.

/// The bytes that a `Bytes` holds.
pub uninterp spec fn bytes_contents(bytes: Bytes) -> Seq<u8>;

/// The topics of a log.
pub uninterp spec fn log_topics(data: LogData) -> Seq<FixedBytes<32>>;

/// The data of a log.
pub uninterp spec fn log_data(data: LogData) -> Seq<u8>;

/// `Bytes::from` on a vector: the byte string holds the vector's bytes.
#[verifier::external_body]
pub(crate) fn bytes_from_vec(bytes: Vec<u8>) -> (result: Bytes)
    ensures
        bytes_contents(result) == bytes@,
{
    Bytes::from(bytes)
}

/// `LogData::topics`: the list of topics.
pub assume_specification [ LogData::topics ](data: &LogData) -> (topics: &[FixedBytes<32>])
    ensures
        topics@ == log_topics(*data),
;

/// `Bytes::as_ref` on the public field `LogData::data`: the bytes of a log's data.
#[verifier::external_body]
pub(crate) fn log_data_bytes(data: &LogData) -> (bytes: &[u8])
    ensures
        bytes@ == log_data(*data),
{
    data.data.as_ref()
}

// Transactions.

/// The gas price that a signed transaction names.
pub uninterp spec fn envelope_gas_price(tx: TxEnvelope) -> Option<u128>;

/// `TxEnvelope::gas_price`: the gas price that the transaction names. Legacy transactions and
/// those with an access list name one; transactions with a fee cap, blobs or authorizations do
/// not.
#[verifier::external_body]
pub(crate) fn gas_price(tx: &TxEnvelope) -> (price: Option<u128>)
    ensures
        price == envelope_gas_price(*tx),
        price is Some <==> (tx is Legacy || tx is Eip2930),
{
    tx.gas_price()
}

/// The encoding of an L2 transaction, in the format of EIP-2718.
pub uninterp spec fn envelope_encoding(envelope: OpTxEnvelope) -> Seq<u8>;

/// `OpTxEnvelope::encode_2718`: appends the encoding of the transaction to the buffer.
#[verifier::external_body]
pub(crate) fn encode_2718(envelope: &OpTxEnvelope, out: &mut Vec<u8>)
    ensures
        final(out)@ == old(out)@ + envelope_encoding(*envelope),
{
    envelope.encode_2718(out)
}

/// The transaction at the given place among those that upgrade a rollup to Ecotone.
pub uninterp spec fn ecotone_upgrade_tx(index: int) -> Seq<u8>;

/// `Hardforks::ecotone_txs`: the six transactions that upgrade a rollup to Ecotone.
pub assume_specification [ Hardforks::ecotone_txs ]() -> (txs: Vec<Bytes>)
    ensures
        txs@.len() == 6,
        forall|i: int|
            0 <= i < 6 ==> bytes_contents(#[trigger] txs@[i]) == ecotone_upgrade_tx(i),
;

/// The transaction at the given place among those that upgrade a rollup to Fjord.
pub uninterp spec fn fjord_upgrade_tx(index: int) -> Seq<u8>;

/// `Hardforks::fjord_txs`: the three transactions that upgrade a rollup to Fjord.
pub assume_specification [ Hardforks::fjord_txs ]() -> (txs: Vec<Bytes>)
    ensures
        txs@.len() == 3,
        forall|i: int| 0 <= i < 3 ==> bytes_contents(#[trigger] txs@[i]) == fjord_upgrade_tx(i),
;

// Headers and configs.

/// The hash of a header.
pub uninterp spec fn header_hash(header: Header) -> FixedBytes<32>;

/// `Header::hash_slow`: the hash of the header.
pub assume_specification [ Header::hash_slow ](header: &Header) -> (hash: FixedBytes<32>)
    ensures
        hash == header_hash(*header),
;

/// `RollupConfig::is_canyon_active`: whether Canyon is active at the time.
pub assume_specification [ RollupConfig::is_canyon_active ](
    config: &RollupConfig,
    timestamp: u64,
) -> (active: bool)
    ensures
        active == active_at(config.canyon_time, timestamp as int),
;

/// `RollupConfig::is_ecotone_active`: whether Ecotone is active at the time.
pub assume_specification [ RollupConfig::is_ecotone_active ](
    config: &RollupConfig,
    timestamp: u64,
) -> (active: bool)
    ensures
        active == active_at(config.ecotone_time, timestamp as int),
;

/// `RollupConfig::is_fjord_active`: whether Fjord is active at the time.
pub assume_specification [ RollupConfig::is_fjord_active ](
    config: &RollupConfig,
    timestamp: u64,
) -> (active: bool)
    ensures
        active == active_at(config.fjord_time, timestamp as int),
;

/// The system config after the config updates that are logged in the receipts of an L1 block of
/// the given time, or the first error among them.
pub uninterp spec fn updated_system_config(
    system_config: SystemConfig,
    receipts: Seq<Receipt<Log<LogData>>>,
    config: RollupConfig,
    l1_time: u64,
) -> Result<SystemConfig, SystemConfigUpdateError>;

/// `SystemConfig::update_with_receipts`: applies the config updates that the receipts log, and
/// stops at the first that is malformed; it fails if there is one. Only logs that the system config
/// contract emitted are read. What the config holds after an error is left open. It panics on a gas
/// limit of more than 64 bits.
pub assume_specification [ SystemConfig::update_with_receipts ](
    system_config: &mut SystemConfig,
    receipts: &[Receipt],
    config: &RollupConfig,
    l1_time: u64,
) -> (result: Result<(), SystemConfigUpdateError>)
    requires
        gas_limits_fit(receipts@, config.l1_system_config_address),
    ensures
        match updated_system_config(*old(system_config), receipts@, *config, l1_time) {
            Ok(updated) => result is Ok && *final(system_config) == updated,
            Err(error) => result == Err::<(), SystemConfigUpdateError>(error),
        },
        result is Ok <==> updates_well_formed(receipts@, config.l1_system_config_address),
        no_log_from(receipts@, config.l1_system_config_address) ==> result is Ok
            && *final(system_config) == *old(system_config),
;

// The L1 info transaction.

/// The L1 info of an L2 block and the deposit transaction that carries it.
pub uninterp spec fn l1_info_deposit(
    config: RollupConfig,
    system_config: SystemConfig,
    sequence_number: u64,
    l1_header: Header,
    l2_block_time: u64,
) -> Result<(L1BlockInfoTx, OpTxEnvelope), BlockInfoError>;

/// What every L1 info says of the L1 block and of the place of the L2 block in its epoch.
pub open spec fn describes(
    info: L1BlockInfoTx,
    l1_header: Header,
    sequence_number: u64,
) -> bool {
    match info {
        L1BlockInfoTx::Bedrock(tx) => {
            &&& tx.number == l1_header.number
            &&& tx.time == l1_header.timestamp
            &&& tx.block_hash == header_hash(l1_header)
            &&& tx.sequence_number == sequence_number
        },
        L1BlockInfoTx::Ecotone(tx) => {
            &&& tx.number == l1_header.number
            &&& tx.time == l1_header.timestamp
            &&& tx.block_hash == header_hash(l1_header)
            &&& tx.sequence_number == sequence_number
        },
    }
}

/// `L1BlockInfoTx::try_new_with_deposit_tx`: the L1 info and the transaction that carries it. It does
/// not fail: its errors are for slices of the wrong length, and it cuts all of them itself. The
/// transaction is a deposit. The info has the Ecotone form where Ecotone was active before the L2
/// block, and the Bedrock form elsewhere; it names the L1 block and the sequence number. For the
/// Ecotone form the blob fee of the header is computed, which overflows above
/// [`MAX_EXCESS_BLOB_GAS`].
pub assume_specification [ L1BlockInfoTx::try_new_with_deposit_tx ](
    config: &RollupConfig,
    system_config: &SystemConfig,
    sequence_number: u64,
    l1_header: &Header,
    l2_block_time: u64,
) -> (result: Result<(L1BlockInfoTx, OpTxEnvelope), BlockInfoError>)
    requires
        ecotone_info(*config, l2_block_time as int) ==> (l1_header.excess_blob_gas matches Some(gas)
            ==> gas <= MAX_EXCESS_BLOB_GAS),
    ensures
        result == l1_info_deposit(
            *config,
            *system_config,
            sequence_number,
            *l1_header,
            l2_block_time,
        ),
        result is Ok,
        result matches Ok((info, envelope)) ==> {
            &&& envelope is Deposit
            &&& info is Ecotone <==> ecotone_info(*config, l2_block_time as int)
            &&& describes(info, *l1_header, sequence_number)
        },
;

/// The calldata that carries an L1 info.
pub uninterp spec fn l1_info_calldata(info: L1BlockInfoTx) -> Bytes;

/// `L1BlockInfoTx::encode_calldata`: the calldata that carries the info.
pub assume_specification [ L1BlockInfoTx::encode_calldata ](info: &L1BlockInfoTx) -> (data: Bytes)
    ensures
        data == l1_info_calldata(*info),
;

/// The text of an error about an L1 info.
pub open spec fn block_info_error_text(error: BlockInfoError) -> Seq<char> {
    match error {
        BlockInfoError::L1BlobBaseFeeScalar => "Failed to parse the L1 blob base fee scalar"@,
        BlockInfoError::BaseFeeScalar => "Failed to parse the base fee scalar"@,
    }
}

/// `BlockInfoError::to_string`: the text of the error.
#[verifier::external_body]
pub(crate) fn block_info_error_to_string(error: &BlockInfoError) -> (text: String)
    ensures
        text@ == block_info_error_text(*error),
{
    error.to_string()
}

// The standard library.

/// `sort` on a slice of integers: the same numbers in ascending order.
#[verifier::external_body]
pub(crate) fn sort(prices: &mut Vec<u128>)
    ensures
        final(prices)@.to_multiset() == old(prices)@.to_multiset(),
        forall|i: int, j: int| 0 <= i <= j < final(prices)@.len() ==> final(prices)@[i] <= final(prices)@[j],
{
    prices.sort();
}

} // verus!
