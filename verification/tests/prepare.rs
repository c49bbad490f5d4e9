use alloy_consensus::{Eip658Value, Header, Receipt};
use alloy_eips::eip2718::{Decodable2718, Encodable2718};
use alloy_eips::BlockNumHash;
use alloy_primitives::{Address, Bytes, Log, LogData, B256, U256};
use alloy_rpc_types_engine::PayloadAttributes;
use attributes_builder::builder::{AttributesBuilder, StatefulAttributesBuilder};
use attributes_builder::errors::{
    BuilderError, PipelineEncodingError, PipelineError, PipelineErrorKind, PipelineResult, ResetError,
};
use attributes_builder::job::{PayloadJob, Reply, Request, Stage, Step};
use attributes_builder::outside::MAX_EXCESS_BLOB_GAS;
use attributes_builder::payload::{SEQUENCER_FEE_VAULT_ADDRESS, ZERO_HASH};
use attributes_builder::receipts::{check_gas_limits, same_bytes, CONFIG_UPDATE_TOPIC};
use op_alloy_consensus::{Hardforks, OpTxEnvelope, TxDeposit};
use op_alloy_genesis::{RollupConfig, SystemConfig};
use op_alloy_protocol::block_info::BlockInfoError;
use op_alloy_protocol::{BlockInfo, L1BlockInfoTx, L2BlockInfo};
use op_alloy_rpc_types_engine::OptimismPayloadAttributes;
use std::collections::HashMap;
use std::sync::Arc;

/// A chain in memory, which also records what it was asked for.
#[derive(Default)]
struct MockChain {
    system_configs: HashMap<u64, SystemConfig>,
    headers: HashMap<B256, Header>,
    receipts: HashMap<B256, Vec<Receipt>>,
    deposits: Option<Vec<Bytes>>,
    gas_price: Option<u64>,
    asked: Vec<String>,
}

impl MockChain {
    fn answer(&mut self, request: Request<'_>) -> Reply {
        match request {
            Request::FetchSystemConfig { number } => {
                self.asked.push(format!("config {}", number));
                let config = self.system_configs.get(&number).copied();
                Reply::SystemConfigReply(config.ok_or("no config".to_string()))
            }
            Request::FetchHeader { hash } => {
                self.asked.push(format!("header {}", hash));
                let header = self.headers.get(&hash).cloned();
                Reply::HeaderReply(header.ok_or("no header".to_string()))
            }
            Request::FetchReceipts { hash } => {
                self.asked.push(format!("receipts {}", hash));
                let receipts = self.receipts.get(&hash).cloned();
                Reply::ReceiptsReply(receipts.ok_or("no receipts".to_string()))
            }
            Request::DeriveDeposits { hash, receipts, deposit_contract } => {
                self.asked.push(format!("deposits {} {} {}", hash, receipts.len(), deposit_contract));
                let deposits = self.deposits.clone();
                Reply::DepositsReply(
                    deposits.ok_or(PipelineEncodingError("bad deposit".to_string())),
                )
            }
            Request::SampleGasPrice { hash } => {
                self.asked.push(format!("price {}", hash));
                Reply::GasPriceReply(
                    self.gas_price.ok_or(PipelineErrorKind::Temporary(PipelineError::MissingL1Data)),
                )
            }
        }
    }

    fn prepare(
        &mut self,
        builder: &StatefulAttributesBuilder,
        l2_parent: L2BlockInfo,
        epoch: BlockNumHash,
    ) -> PipelineResult<OptimismPayloadAttributes> {
        let mut job = builder.prepare_payload_attributes(l2_parent, epoch);
        loop {
            let reply = self.answer(builder.request(&job));
            match builder.checked_advance(job, reply).unwrap() {
                Step::Pending(next) => job = next,
                Step::Done(result) => return result,
            }
        }
    }
}

/// A chain that knows the system config of block 1 and one header, by its hash.
fn chain_with(header: &Header) -> (MockChain, B256) {
    let mut chain = MockChain::default();
    chain.system_configs.insert(1, SystemConfig::default());
    let hash = header.hash_slow();
    chain.headers.insert(hash, header.clone());
    (chain, hash)
}

/// A parent at time 100, in the epoch with the given hash.
fn parent_at_100(hash: B256) -> L2BlockInfo {
    L2BlockInfo {
        block_info: BlockInfo { hash: B256::ZERO, number: 1, timestamp: 100, parent_hash: hash },
        l1_origin: BlockNumHash { hash, number: 1 },
        seq_num: 0,
    }
}

/// The calldata of the L1 info transaction of a payload, decoded.
fn l1_info_of(payload: &OptimismPayloadAttributes) -> (L1BlockInfoTx, TxDeposit) {
    let encoded = payload.transactions.as_ref().unwrap()[0].to_vec();
    let envelope = OpTxEnvelope::decode_2718(&mut encoded.as_slice()).unwrap();
    let deposit = envelope.as_deposit().unwrap().clone();
    (L1BlockInfoTx::decode_calldata(&deposit.input).unwrap(), deposit)
}

/// A log by which the system config contract sets the gas limit.
fn gas_limit_log(contract: Address, word: [u8; 32]) -> Log {
    let mut data = vec![0u8; 96];
    data[31] = 32;
    data[63] = 32;
    data[64..96].copy_from_slice(&word);
    let topics = vec![B256::from(CONFIG_UPDATE_TOPIC), B256::ZERO, B256::left_padding_from(&[2])];
    Log { address: contract, data: LogData::new_unchecked(topics, data.into()) }
}

fn receipt_of(logs: Vec<Log>) -> Receipt {
    Receipt { status: Eip658Value::Eip658(true), cumulative_gas_used: 0, logs }
}

#[test]
fn test_prepare_payload_block_mismatch_epoch_reset() {
    let cfg = Arc::new(RollupConfig::default());
    let l2_number = 1;
    let header = Header::default();
    let (mut chain, hash) = chain_with(&header);
    let builder = StatefulAttributesBuilder::new(cfg);
    let epoch = BlockNumHash { hash, number: l2_number };
    let l2_parent = L2BlockInfo {
        block_info: BlockInfo { hash: B256::ZERO, number: l2_number, ..Default::default() },
        l1_origin: BlockNumHash { hash: B256::left_padding_from(&[0xFF]), number: 2 },
        seq_num: 0,
    };
    // The hash of the parent's L1 origin is not that of the header's parent.
    let expected =
        BuilderError::BlockMismatchEpochReset(epoch, l2_parent.l1_origin, B256::default());
    let err = chain.prepare(&builder, l2_parent, epoch).unwrap_err();
    assert_eq!(err, PipelineErrorKind::Reset(ResetError::AttributesBuilder(expected)));
    assert_eq!(chain.asked, vec!["config 1".to_string(), format!("header {}", hash)]);
}

#[test]
fn test_prepare_payload_block_mismatch() {
    let cfg = Arc::new(RollupConfig::default());
    let l2_number = 1;
    let header = Header::default();
    let (mut chain, hash) = chain_with(&header);
    let builder = StatefulAttributesBuilder::new(cfg);
    let epoch = BlockNumHash { hash, number: l2_number };
    let l2_parent = L2BlockInfo {
        block_info: BlockInfo { hash: B256::ZERO, number: l2_number, ..Default::default() },
        l1_origin: BlockNumHash { hash: B256::ZERO, number: l2_number },
        seq_num: 0,
    };
    // The hash of the parent's L1 origin is not that of the epoch.
    let expected = BuilderError::BlockMismatch(epoch, l2_parent.l1_origin);
    let err = chain.prepare(&builder, l2_parent, epoch).unwrap_err();
    assert_eq!(err, PipelineErrorKind::Reset(ResetError::AttributesBuilder(expected)));
    assert_eq!(chain.asked, vec!["config 1".to_string()]);
}

#[test]
fn test_prepare_payload_broken_time_invariant() {
    let block_time = 10;
    let timestamp = 100;
    let cfg = Arc::new(RollupConfig { block_time, ..Default::default() });
    let l2_number = 1;
    let header = Header { timestamp, ..Default::default() };
    let (mut chain, hash) = chain_with(&header);
    let builder = StatefulAttributesBuilder::new(cfg);
    let epoch = BlockNumHash { hash, number: l2_number };
    let l2_parent = L2BlockInfo {
        block_info: BlockInfo { hash: B256::ZERO, number: l2_number, ..Default::default() },
        l1_origin: BlockNumHash { hash, number: l2_number },
        seq_num: 0,
    };
    let next_l2_time = l2_parent.block_info.timestamp + block_time;
    let block_id = BlockNumHash { hash, number: 0 };
    let expected = BuilderError::BrokenTimeInvariant(
        l2_parent.l1_origin,
        next_l2_time,
        block_id,
        timestamp,
    );
    let err = chain.prepare(&builder, l2_parent, epoch).unwrap_err();
    assert_eq!(err, PipelineErrorKind::Reset(ResetError::AttributesBuilder(expected)));
}

#[test]
fn test_prepare_payload_without_forks() {
    let block_time = 10;
    let timestamp = 100;
    let cfg = Arc::new(RollupConfig { block_time, ..Default::default() });
    let l2_number = 1;
    let header = Header { timestamp, ..Default::default() };
    let prev_randao = header.mix_hash;
    let (mut chain, hash) = chain_with(&header);
    let builder = StatefulAttributesBuilder::new(cfg);
    let epoch = BlockNumHash { hash, number: l2_number };
    let l2_parent = L2BlockInfo {
        block_info: BlockInfo { hash: B256::ZERO, number: l2_number, timestamp, parent_hash: hash },
        l1_origin: BlockNumHash { hash, number: l2_number },
        seq_num: 0,
    };
    let next_l2_time = l2_parent.block_info.timestamp + block_time;
    let payload = chain.prepare(&builder, l2_parent, epoch).unwrap();
    let expected = OptimismPayloadAttributes {
        payload_attributes: PayloadAttributes {
            timestamp: next_l2_time,
            prev_randao,
            suggested_fee_recipient: Address::from(SEQUENCER_FEE_VAULT_ADDRESS),
            parent_beacon_block_root: None,
            withdrawals: None,
        },
        transactions: payload.transactions.clone(),
        no_tx_pool: Some(true),
        gas_limit: Some(u64::from_be_bytes(
            alloy_primitives::U64::from(SystemConfig::default().gas_limit).to_be_bytes(),
        )),
    };
    assert_eq!(payload, expected);
    assert_eq!(payload.transactions.unwrap().len(), 1);
}

#[test]
fn test_prepare_payload_with_canyon() {
    let block_time = 10;
    let timestamp = 100;
    let cfg = Arc::new(RollupConfig { block_time, canyon_time: Some(0), ..Default::default() });
    let l2_number = 1;
    let header = Header { timestamp, ..Default::default() };
    let prev_randao = header.mix_hash;
    let (mut chain, hash) = chain_with(&header);
    let builder = StatefulAttributesBuilder::new(cfg);
    let epoch = BlockNumHash { hash, number: l2_number };
    let l2_parent = L2BlockInfo {
        block_info: BlockInfo { hash: B256::ZERO, number: l2_number, timestamp, parent_hash: hash },
        l1_origin: BlockNumHash { hash, number: l2_number },
        seq_num: 0,
    };
    let next_l2_time = l2_parent.block_info.timestamp + block_time;
    let payload = chain.prepare(&builder, l2_parent, epoch).unwrap();
    let expected = OptimismPayloadAttributes {
        payload_attributes: PayloadAttributes {
            timestamp: next_l2_time,
            prev_randao,
            suggested_fee_recipient: Address::from(SEQUENCER_FEE_VAULT_ADDRESS),
            parent_beacon_block_root: None,
            withdrawals: Some(Vec::default()),
        },
        transactions: payload.transactions.clone(),
        no_tx_pool: Some(true),
        gas_limit: Some(u64::from_be_bytes(
            alloy_primitives::U64::from(SystemConfig::default().gas_limit).to_be_bytes(),
        )),
    };
    assert_eq!(payload, expected);
    assert_eq!(payload.transactions.unwrap().len(), 1);
}

#[test]
fn test_prepare_payload_with_ecotone() {
    let block_time = 2;
    let timestamp = 100;
    let cfg = Arc::new(RollupConfig { block_time, ecotone_time: Some(102), ..Default::default() });
    let l2_number = 1;
    let header = Header { timestamp, ..Default::default() };
    let parent_beacon_block_root = Some(header.parent_beacon_block_root.unwrap_or_default());
    let prev_randao = header.mix_hash;
    let (mut chain, hash) = chain_with(&header);
    let builder = StatefulAttributesBuilder::new(cfg);
    let epoch = BlockNumHash { hash, number: l2_number };
    let l2_parent = L2BlockInfo {
        block_info: BlockInfo { hash: B256::ZERO, number: l2_number, timestamp, parent_hash: hash },
        l1_origin: BlockNumHash { hash, number: l2_number },
        seq_num: 0,
    };
    let next_l2_time = l2_parent.block_info.timestamp + block_time;
    let payload = chain.prepare(&builder, l2_parent, epoch).unwrap();
    let expected = OptimismPayloadAttributes {
        payload_attributes: PayloadAttributes {
            timestamp: next_l2_time,
            prev_randao,
            suggested_fee_recipient: Address::from(SEQUENCER_FEE_VAULT_ADDRESS),
            parent_beacon_block_root,
            withdrawals: None,
        },
        transactions: payload.transactions.clone(),
        no_tx_pool: Some(true),
        gas_limit: Some(u64::from_be_bytes(
            alloy_primitives::U64::from(SystemConfig::default().gas_limit).to_be_bytes(),
        )),
    };
    assert_eq!(payload, expected);
    assert_eq!(payload.transactions.unwrap().len(), 7);
}

#[test]
fn test_prepare_payload_with_fjord() {
    let block_time = 2;
    let timestamp = 100;
    let cfg = Arc::new(RollupConfig { block_time, fjord_time: Some(102), ..Default::default() });
    let l2_number = 1;
    let header = Header { timestamp, ..Default::default() };
    let prev_randao = header.mix_hash;
    let (mut chain, hash) = chain_with(&header);
    let builder = StatefulAttributesBuilder::new(cfg);
    let epoch = BlockNumHash { hash, number: l2_number };
    let l2_parent = L2BlockInfo {
        block_info: BlockInfo { hash: B256::ZERO, number: l2_number, timestamp, parent_hash: hash },
        l1_origin: BlockNumHash { hash, number: l2_number },
        seq_num: 0,
    };
    let next_l2_time = l2_parent.block_info.timestamp + block_time;
    let payload = chain.prepare(&builder, l2_parent, epoch).unwrap();
    let expected = OptimismPayloadAttributes {
        payload_attributes: PayloadAttributes {
            timestamp: next_l2_time,
            prev_randao,
            suggested_fee_recipient: Address::from(SEQUENCER_FEE_VAULT_ADDRESS),
            parent_beacon_block_root: None,
            withdrawals: None,
        },
        transactions: payload.transactions.clone(),
        no_tx_pool: Some(true),
        gas_limit: Some(u64::from_be_bytes(
            alloy_primitives::U64::from(SystemConfig::default().gas_limit).to_be_bytes(),
        )),
    };
    assert_eq!(payload, expected);
    assert_eq!(payload.transactions.unwrap().len(), 4);
}

#[test]
fn the_upgrade_transactions_come_last_and_ecotone_before_fjord() {
    let cfg = Arc::new(RollupConfig {
        block_time: 2,
        ecotone_time: Some(102),
        fjord_time: Some(101),
        ..Default::default()
    });
    let header = Header { timestamp: 100, ..Default::default() };
    let (mut chain, hash) = chain_with(&header);
    let builder = StatefulAttributesBuilder::new(cfg);
    let epoch = BlockNumHash { hash, number: 1 };
    let payload = chain.prepare(&builder, parent_at_100(hash), epoch).unwrap();
    let txs = payload.transactions.unwrap();
    let mut expected = Hardforks::ecotone_txs();
    expected.append(&mut Hardforks::fjord_txs());
    assert_eq!(txs[1..].to_vec(), expected);
    // The next block carries none of them again.
    assert!(builder.upgrade_transactions(102, 104).is_empty());
    assert_eq!(builder.upgrade_transactions(99, 101), Hardforks::fjord_txs());
    assert_eq!(builder.upgrade_transactions(101, 103), Hardforks::ecotone_txs());
}

#[test]
fn an_epoch_begins_with_its_deposits_and_config_updates() {
    let contract = Address::left_padding_from(&[7]);
    let deposit_contract = Address::left_padding_from(&[8]);
    let cfg = Arc::new(RollupConfig {
        block_time: 10,
        l1_system_config_address: contract,
        deposit_contract_address: deposit_contract,
        ..Default::default()
    });
    let origin = BlockNumHash { hash: B256::left_padding_from(&[5]), number: 1 };
    let header = Header {
        timestamp: 105,
        number: 2,
        parent_hash: origin.hash,
        mix_hash: B256::left_padding_from(&[6]),
        ..Default::default()
    };
    let (mut chain, hash) = chain_with(&header);
    let mut word = [0u8; 32];
    word[30] = 0x12;
    word[31] = 0x34;
    chain.receipts.insert(hash, vec![receipt_of(vec![gas_limit_log(contract, word)])]);
    let deposits = vec![Bytes::from(vec![1u8, 2]), Bytes::from(vec![3u8])];
    chain.deposits = Some(deposits.clone());
    let builder = StatefulAttributesBuilder::new(cfg);
    let epoch = BlockNumHash { hash, number: 2 };
    let l2_parent = L2BlockInfo { l1_origin: origin, seq_num: 7, ..parent_at_100(hash) };
    let payload = chain.prepare(&builder, l2_parent, epoch).unwrap();
    assert_eq!(
        chain.asked,
        vec![
            "config 1".to_string(),
            format!("header {}", hash),
            format!("receipts {}", hash),
            format!("deposits {} 1 {}", hash, deposit_contract),
        ]
    );
    assert_eq!(payload.gas_limit, Some(0x1234));
    assert_eq!(payload.payload_attributes.timestamp, 110);
    assert_eq!(payload.payload_attributes.prev_randao, header.mix_hash);
    let (info, deposit) = l1_info_of(&payload);
    assert!(matches!(info, L1BlockInfoTx::Bedrock(_)));
    assert_eq!(info.id(), BlockNumHash { hash, number: 2 });
    assert_eq!(info.sequence_number(), 0);
    assert_eq!(deposit.gas_limit, 150_000_000);
    assert_eq!(payload.transactions.unwrap()[1..].to_vec(), deposits);
}

#[test]
fn receipts_of_other_contracts_leave_the_system_config() {
    let contract = Address::left_padding_from(&[7]);
    let cfg =
        Arc::new(RollupConfig { l1_system_config_address: contract, ..Default::default() });
    let builder = StatefulAttributesBuilder::new(cfg);
    let config = SystemConfig { gas_limit: 5, ..Default::default() };
    let other = receipt_of(vec![gas_limit_log(Address::left_padding_from(&[9]), [0u8; 32])]);
    assert_eq!(builder.update_system_config(config, &vec![other], 0), Ok(config));
    assert_eq!(builder.update_system_config(config, &vec![], 0), Ok(config));
    let own = receipt_of(vec![gas_limit_log(contract, [0u8; 32])]);
    let zero = SystemConfig { gas_limit: 0, ..config };
    assert_eq!(builder.update_system_config(config, &vec![own], 0), Ok(zero));
}

#[test]
fn the_sequence_number_counts_on_within_an_epoch() {
    let cfg = Arc::new(RollupConfig { block_time: 10, ..Default::default() });
    let header = Header { timestamp: 100, ..Default::default() };
    let (mut chain, hash) = chain_with(&header);
    let builder = StatefulAttributesBuilder::new(cfg);
    let l2_parent = L2BlockInfo { seq_num: 41, ..parent_at_100(hash) };
    let epoch = BlockNumHash { hash, number: 1 };
    let payload = chain.prepare(&builder, l2_parent, epoch).unwrap();
    assert_eq!(l1_info_of(&payload).0.sequence_number(), 42);
}

#[test]
fn the_gas_price_becomes_the_base_fee_of_the_l1_info() {
    let root = B256::left_padding_from(&[3]);
    let cfg = Arc::new(RollupConfig {
        block_time: 2,
        ecotone_time: Some(50),
        regolith_time: Some(0),
        ..Default::default()
    });
    let header = Header {
        timestamp: 100,
        base_fee_per_gas: Some(11),
        excess_blob_gas: Some(MAX_EXCESS_BLOB_GAS),
        parent_beacon_block_root: Some(root),
        ..Default::default()
    };
    let (mut chain, hash) = chain_with(&header);
    chain.gas_price = Some(7_895_590_675);
    let builder = StatefulAttributesBuilder::new(cfg);
    let epoch = BlockNumHash { hash, number: 1 };
    let payload = chain.prepare(&builder, parent_at_100(hash), epoch).unwrap();
    assert_eq!(chain.asked.last().unwrap(), &format!("price {}", hash));
    assert_eq!(payload.payload_attributes.parent_beacon_block_root, Some(root));
    let (info, deposit) = l1_info_of(&payload);
    match info {
        L1BlockInfoTx::Ecotone(tx) => {
            assert_eq!(tx.base_fee, 7_895_590_675);
            assert_eq!(tx.block_hash, hash);
            assert_eq!(tx.time, 100);
            assert_eq!(tx.sequence_number, 1);
        }
        L1BlockInfoTx::Bedrock(_) => panic!("the Bedrock form"),
    }
    assert_eq!(deposit.gas_limit, 1_000_000);
    assert_eq!(payload.transactions.unwrap().len(), 1);
}

#[test]
fn another_gas_price_changes_the_first_transaction_only() {
    let cfg = Arc::new(RollupConfig { block_time: 2, ecotone_time: Some(101), ..Default::default() });
    let header = Header { timestamp: 100, ..Default::default() };
    let (mut chain, hash) = chain_with(&header);
    let builder = StatefulAttributesBuilder::new(cfg);
    let epoch = BlockNumHash { hash, number: 1 };
    chain.gas_price = Some(1);
    let left = chain.prepare(&builder, parent_at_100(hash), epoch).unwrap();
    chain.gas_price = Some(2);
    let right = chain.prepare(&builder, parent_at_100(hash), epoch).unwrap();
    assert_eq!(left.payload_attributes, right.payload_attributes);
    let (left, right) = (left.transactions.unwrap(), right.transactions.unwrap());
    assert_ne!(left[0], right[0]);
    assert_eq!(left[1..], right[1..]);
    assert_eq!(left.len(), 7);
}

#[test]
fn a_missing_gas_price_ends_the_job() {
    let cfg = Arc::new(RollupConfig { block_time: 2, ecotone_time: Some(0), ..Default::default() });
    let header = Header { timestamp: 100, ..Default::default() };
    let (mut chain, hash) = chain_with(&header);
    let builder = StatefulAttributesBuilder::new(cfg);
    let epoch = BlockNumHash { hash, number: 1 };
    let err = chain.prepare(&builder, parent_at_100(hash), epoch).unwrap_err();
    assert_eq!(err, PipelineErrorKind::Temporary(PipelineError::MissingL1Data));
}

#[test]
fn a_missing_beacon_root_is_the_zero_hash() {
    let cfg = Arc::new(RollupConfig { block_time: 2, ecotone_time: Some(102), ..Default::default() });
    let header = Header { timestamp: 100, ..Default::default() };
    let (mut chain, hash) = chain_with(&header);
    let builder = StatefulAttributesBuilder::new(cfg);
    let epoch = BlockNumHash { hash, number: 1 };
    let payload = chain.prepare(&builder, parent_at_100(hash), epoch).unwrap();
    assert_eq!(
        payload.payload_attributes.parent_beacon_block_root,
        Some(B256::from(ZERO_HASH))
    );
    assert_eq!(B256::from(ZERO_HASH), B256::ZERO);
}

#[test]
fn a_provider_that_fails_is_tried_again() {
    let builder = StatefulAttributesBuilder::new(Arc::new(RollupConfig::default()));
    let origin = BlockNumHash { hash: B256::ZERO, number: 1 };
    let header = Header::default();
    let epoch = BlockNumHash { hash: header.hash_slow(), number: 2 };
    let l2_parent = L2BlockInfo { l1_origin: origin, ..parent_at_100(B256::ZERO) };
    let failure =
        |text: &str| PipelineErrorKind::Temporary(PipelineError::Provider(text.to_string()));

    let mut chain = MockChain::default();
    assert_eq!(chain.prepare(&builder, l2_parent, epoch).unwrap_err(), failure("no config"));
    chain.system_configs.insert(1, SystemConfig::default());
    assert_eq!(chain.prepare(&builder, l2_parent, epoch).unwrap_err(), failure("no header"));
    chain.headers.insert(epoch.hash, header);
    assert_eq!(chain.prepare(&builder, l2_parent, epoch).unwrap_err(), failure("no receipts"));
    chain.receipts.insert(epoch.hash, vec![]);
    assert_eq!(
        chain.prepare(&builder, l2_parent, epoch).unwrap_err(),
        PipelineErrorKind::Critical(PipelineError::BadEncoding(PipelineEncodingError(
            "bad deposit".to_string()
        )))
    );
    chain.deposits = Some(vec![]);
    assert!(chain.prepare(&builder, l2_parent, epoch).is_ok());
}

#[test]
fn a_malformed_config_update_is_critical() {
    let contract = Address::left_padding_from(&[7]);
    let cfg =
        Arc::new(RollupConfig { l1_system_config_address: contract, ..Default::default() });
    let builder = StatefulAttributesBuilder::new(cfg.clone());
    let header = Header::default();
    let (mut chain, hash) = chain_with(&header);
    let topics = vec![B256::from(CONFIG_UPDATE_TOPIC)];
    let log = Log { address: contract, data: LogData::new_unchecked(topics, Bytes::new()) };
    let receipts = vec![receipt_of(vec![log])];
    chain.receipts.insert(hash, receipts.clone());
    chain.deposits = Some(vec![]);
    let epoch = BlockNumHash { hash, number: 2 };
    let l2_parent = L2BlockInfo {
        l1_origin: BlockNumHash { hash: B256::ZERO, number: 1 },
        ..parent_at_100(hash)
    };
    let error = SystemConfig::default().update_with_receipts(&receipts, &cfg, 0).unwrap_err();
    assert_eq!(
        chain.prepare(&builder, l2_parent, epoch).unwrap_err(),
        PipelineErrorKind::Critical(PipelineError::SystemConfigUpdate(error))
    );
}

#[test]
fn an_l1_info_that_cannot_be_made_is_critical() {
    let builder = StatefulAttributesBuilder::new(Arc::new(RollupConfig::default()));
    let epoch = BlockNumHash::default();
    let end = |error: BlockInfoError| {
        builder.resume_with_l1_info(
            L2BlockInfo::default(),
            epoch,
            SystemConfig::default(),
            Header::default(),
            None,
            Err(error),
        )
    };
    let custom = |step: Step| match step {
        Step::Done(Err(PipelineErrorKind::Critical(PipelineError::AttributesBuilder(
            BuilderError::Custom(text),
        )))) => text,
        _ => panic!("not a custom error"),
    };
    assert_eq!(
        custom(end(BlockInfoError::L1BlobBaseFeeScalar)),
        "Failed to parse the L1 blob base fee scalar"
    );
    assert_eq!(custom(end(BlockInfoError::BaseFeeScalar)), "Failed to parse the base fee scalar");
}

#[test]
fn a_transaction_that_is_no_deposit_is_encoded_as_it_is() {
    let builder = StatefulAttributesBuilder::new(Arc::new(RollupConfig::default()));
    let header = Header::default();
    let made = L1BlockInfoTx::try_new_with_deposit_tx(
        &builder.rollup_cfg,
        &SystemConfig::default(),
        3,
        &header,
        0,
    )
    .unwrap();
    let raw = {
        let tx = alloy_consensus::TxLegacy { gas_price: 5, ..Default::default() };
        let signature = alloy_primitives::Signature::test_signature();
        let signed = alloy_consensus::SignableTransaction::into_signed(tx, signature);
        OpTxEnvelope::Legacy(signed)
    };
    let payload = builder.payload_attributes(
        L2BlockInfo::default(),
        SystemConfig { gas_limit: 9, ..Default::default() },
        &header,
        Some(vec![Bytes::from(vec![1u8])]),
        made.0,
        raw.clone(),
    );
    let mut encoded = Vec::new();
    raw.encode_2718(&mut encoded);
    assert_eq!(
        payload.transactions,
        Some(vec![Bytes::from(encoded), Bytes::from(vec![1u8])])
    );
    assert_eq!(payload.gas_limit, Some(9));
    assert_eq!(payload.no_tx_pool, Some(true));
}

#[test]
fn times_and_sequence_numbers_out_of_range_are_found() {
    let header = Header::default();
    let hash = header.hash_slow();
    let epoch = BlockNumHash { hash, number: 1 };
    let job = |l2_parent: L2BlockInfo| PayloadJob {
        l2_parent,
        epoch,
        stage: Stage::AwaitingHeader { sys_config: SystemConfig::default() },
    };
    let slow = StatefulAttributesBuilder::new(Arc::new(RollupConfig {
        block_time: u64::MAX - 99,
        ..Default::default()
    }));
    let reply = || Reply::HeaderReply(Ok(header.clone()));
    assert!(slow.checked_advance(job(parent_at_100(hash)), reply()).is_none());
    let fast = StatefulAttributesBuilder::new(Arc::new(RollupConfig {
        block_time: u64::MAX - 100,
        ..Default::default()
    }));
    assert!(fast.checked_advance(job(parent_at_100(hash)), reply()).is_some());
    let last = L2BlockInfo { seq_num: u64::MAX, ..parent_at_100(hash) };
    assert!(fast.checked_advance(job(last), reply()).is_none());
    // Where the provider failed, no number comes up.
    let failed = Reply::HeaderReply(Err("gone".to_string()));
    assert!(slow.checked_advance(job(parent_at_100(hash)), failed).is_some());
}

#[test]
fn a_blob_fee_out_of_range_is_found() {
    let header =
        Header { excess_blob_gas: Some(MAX_EXCESS_BLOB_GAS + 1), ..Default::default() };
    let hash = header.hash_slow();
    let epoch = BlockNumHash { hash, number: 1 };
    let ecotone = StatefulAttributesBuilder::new(Arc::new(RollupConfig {
        ecotone_time: Some(0),
        ..Default::default()
    }));
    assert!(!ecotone.check_origin(&parent_at_100(hash), &epoch, &header));
    let later = Header { timestamp: 101, ..header.clone() };
    assert!(ecotone.check_origin(&parent_at_100(hash), &epoch, &later));
    let first = StatefulAttributesBuilder::new(Arc::new(RollupConfig {
        ecotone_time: Some(100),
        ..Default::default()
    }));
    assert!(first.check_origin(&parent_at_100(hash), &epoch, &header));
}

#[test]
fn a_gas_limit_out_of_range_is_found() {
    let contract = Address::left_padding_from(&[7]);
    let mut largest = [0u8; 32];
    for byte in largest.iter_mut().skip(24) {
        *byte = 0xFF;
    }
    let mut too_large = [0u8; 32];
    too_large[23] = 1;
    let fits = vec![receipt_of(vec![gas_limit_log(contract, largest)])];
    assert!(check_gas_limits(&fits, &contract));
    let over = vec![receipt_of(vec![gas_limit_log(contract, too_large)])];
    assert!(!check_gas_limits(&over, &contract));
    assert!(check_gas_limits(&over, &Address::ZERO));
    let failed = Receipt { status: Eip658Value::Eip658(false), ..over[0].clone() };
    assert!(check_gas_limits(&vec![failed], &contract));

    let cfg =
        Arc::new(RollupConfig { l1_system_config_address: contract, ..Default::default() });
    let builder = StatefulAttributesBuilder::new(cfg);
    let updated = builder.update_system_config(SystemConfig::default(), &fits, 0).unwrap();
    assert_eq!(updated.gas_limit, u64::MAX);
    let job = |receipts: Vec<Receipt>| PayloadJob {
        l2_parent: L2BlockInfo {
            l1_origin: BlockNumHash { hash: B256::ZERO, number: 0 },
            ..parent_at_100(B256::ZERO)
        },
        epoch: BlockNumHash { hash: B256::ZERO, number: 1 },
        stage: Stage::AwaitingDeposits {
            sys_config: SystemConfig::default(),
            l1_header: Header::default(),
            receipts,
        },
    };
    assert!(builder.checked_advance(job(over), Reply::DepositsReply(Ok(vec![]))).is_none());
    assert!(builder.checked_advance(job(fits), Reply::DepositsReply(Ok(vec![]))).is_some());
}

/// A log by which the system config contract announces an update of the given type.
fn update_log(contract: Address, update_type: u8, data: Vec<u8>) -> Log {
    let topics =
        vec![B256::from(CONFIG_UPDATE_TOPIC), B256::ZERO, B256::left_padding_from(&[update_type])];
    Log { address: contract, data: LogData::new_unchecked(topics, data.into()) }
}

/// The encoding of a byte string of the given words.
fn words(content: &[[u8; 32]]) -> Vec<u8> {
    let mut data = vec![0u8; 64];
    data[31] = 32;
    data[63] = 32 * content.len() as u8;
    for word in content {
        data.extend_from_slice(word);
    }
    data
}

#[test]
fn an_update_is_malformed_by_its_type_and_data() {
    let contract = Address::left_padding_from(&[7]);
    let cfg =
        Arc::new(RollupConfig { l1_system_config_address: contract, ..Default::default() });
    let builder = StatefulAttributesBuilder::new(cfg);
    let succeeds = |log: Log| {
        let receipts = vec![receipt_of(vec![log])];
        assert!(check_gas_limits(&receipts, &contract));
        builder.update_system_config(SystemConfig::default(), &receipts, 0).is_ok()
    };
    let one = {
        let mut word = [0u8; 32];
        word[31] = 1;
        word
    };
    let wide = [0xFF; 32];
    let address = {
        let mut word = wide;
        word[..12].copy_from_slice(&[0; 12]);
        word
    };
    assert!(succeeds(update_log(contract, 0, words(&[address]))));
    assert!(!succeeds(update_log(contract, 0, words(&[wide]))));
    assert!(!succeeds(update_log(contract, 0, words(&[one, one]))));
    assert!(succeeds(update_log(contract, 1, words(&[wide, wide]))));
    assert!(!succeeds(update_log(contract, 1, words(&[one]))));
    assert!(succeeds(update_log(contract, 2, words(&[one]))));
    assert!(!succeeds(update_log(contract, 2, words(&[]))));
    assert!(succeeds(update_log(contract, 3, vec![])));
    assert!(!succeeds(update_log(contract, 4, vec![])));
    // The pointer and the length are read in full.
    for place in [0, 31, 32, 63] {
        let mut data = words(&[one]);
        data[place] ^= 1;
        assert!(!succeeds(update_log(contract, 2, data)));
    }
    // Of the type only the last eight bytes are read, of the version all.
    let mut log = update_log(contract, 3, vec![]);
    log.data.topics_mut()[2].0[23] = 1;
    assert!(succeeds(log.clone()));
    log.data.topics_mut()[2].0[24] = 1;
    assert!(!succeeds(log));
    let mut log = update_log(contract, 3, vec![]);
    log.data.topics_mut()[1].0[0] = 1;
    assert!(!succeeds(log));
}

#[test]
fn what_follows_a_malformed_update_is_not_read() {
    let contract = Address::left_padding_from(&[7]);
    let cfg =
        Arc::new(RollupConfig { l1_system_config_address: contract, ..Default::default() });
    let builder = StatefulAttributesBuilder::new(cfg);
    let malformed = || update_log(contract, 4, vec![]);
    let oversized = || update_log(contract, 2, words(&[[0xFF; 32]]));
    for receipts in [
        vec![receipt_of(vec![malformed(), oversized()])],
        vec![receipt_of(vec![malformed()]), receipt_of(vec![oversized()])],
    ] {
        assert!(check_gas_limits(&receipts, &contract));
        assert!(builder.update_system_config(SystemConfig::default(), &receipts, 0).is_err());
    }
    assert!(!check_gas_limits(&vec![receipt_of(vec![oversized(), malformed()])], &contract));
    let failed = Receipt {
        status: Eip658Value::Eip658(false),
        ..receipt_of(vec![malformed()])
    };
    assert!(!check_gas_limits(&vec![failed, receipt_of(vec![oversized()])], &contract));
}

#[test]
fn the_constants_are_those_of_the_rollup() {
    let topic = alloy_primitives::keccak256("ConfigUpdate(uint256,uint8,bytes)");
    assert_eq!(B256::from(CONFIG_UPDATE_TOPIC), topic);
    let vault = "0x4200000000000000000000000000000000000011".parse::<Address>().unwrap();
    assert_eq!(Address::from(SEQUENCER_FEE_VAULT_ADDRESS), vault);
}

#[test]
fn byte_strings_are_compared_byte_by_byte() {
    let one = B256::left_padding_from(&[1]);
    assert!(same_bytes(&one, &one));
    assert!(!same_bytes(&one, &B256::ZERO));
    assert!(!same_bytes(&B256::from(U256::MAX), &B256::right_padding_from(&[0xFF])));
}
