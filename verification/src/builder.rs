//! The payload attributes of the next L2 block.
use alloy_consensus::{Header, Receipt};
use alloy_eips::BlockNumHash;
use alloy_primitives::{Address, Bytes, FixedBytes, Log, LogData};
use alloy_rpc_types_engine::PayloadAttributes;
use op_alloy_consensus::{Hardforks, OpTxEnvelope};
use op_alloy_genesis::{RollupConfig, SystemConfig, SystemConfigUpdateError};
use op_alloy_protocol::block_info::BlockInfoError;
use op_alloy_protocol::{L1BlockInfoTx, L2BlockInfo};
use op_alloy_rpc_types_engine::OptimismPayloadAttributes;
use std::sync::Arc;
use vstd::prelude::*;

use crate::errors::{BuilderError, PipelineError};
use crate::forks::ecotone_info;
use crate::job::{
    answers, begins_epoch, follows_origin, PayloadJob, Reply, Request, Stage, Step,
};
use crate::outside::{
    block_info_error_to_string, bytes_from_vec, ecotone_upgrade_tx, encode_2718, envelope_encoding,
    fjord_upgrade_tx, updated_system_config, MAX_EXCESS_BLOB_GAS,
};
use crate::payload::{
    carrying, contents, included, next_l2_time, payload, payload_view, upgrades,
    SEQUENCER_FEE_VAULT_ADDRESS, ZERO_HASH,
};
use crate::receipts::{
    check_gas_limits, gas_limits_fit, no_log_from, same_bytes, updates_well_formed,
};
use crate::steps::{
    after_config, after_header, after_l1_info, after_origin, after_update, completes,
    deposit_contents, in_range, is_last, next_step, origin_in_range, requested,
};

verus! {

/// Prepares the payload attributes of L2 blocks that contain deposits only.
pub trait AttributesBuilder {
    /// Begins to prepare the attributes of the L2 block on top of `l2_parent`, with `epoch` as its
    /// L1 origin. The attributes are a template: they hold no transactions of the sequencer, and
    /// keep the block closed to those of the pool.
    fn prepare_payload_attributes(&self, l2_parent: L2BlockInfo, epoch: BlockNumHash) -> (job:
        PayloadJob)
        ensures
            job == (PayloadJob { l2_parent, epoch, stage: Stage::AwaitingConfig }),
    ;
}

/// Builds the payload attributes of L2 blocks.
#[derive(Debug, Default)]
pub struct StatefulAttributesBuilder {
    /// The rollup config.
    pub rollup_cfg: Arc<RollupConfig>,
}

impl AttributesBuilder for StatefulAttributesBuilder {
    fn prepare_payload_attributes(&self, l2_parent: L2BlockInfo, epoch: BlockNumHash) -> (job:
        PayloadJob) {
        PayloadJob { l2_parent, epoch, stage: Stage::AwaitingConfig }
    }
}

impl StatefulAttributesBuilder {
    /// Creates a builder for the rollup with the given config.
    pub fn new(rcfg: Arc<RollupConfig>) -> (builder: Self)
        ensures
            builder.rollup_cfg == rcfg,
    {
        StatefulAttributesBuilder { rollup_cfg: rcfg }
    }

    /// The transactions that upgrade the rollup in the block at `timestamp`, whose parent is at
    /// `parent_timestamp`.
    pub fn upgrade_transactions(&self, parent_timestamp: u64, timestamp: u64) -> (txs: Vec<Bytes>)
        ensures
            contents(txs@) == upgrades(
                *self.rollup_cfg,
                parent_timestamp as int,
                timestamp as int,
            ),
    {
        let mut upgrade_transactions: Vec<Bytes> = Vec::new();
        if self.rollup_cfg.is_ecotone_active(timestamp) && !self.rollup_cfg.is_ecotone_active(
            parent_timestamp,
        ) {
            upgrade_transactions = Hardforks::ecotone_txs();
            assert(contents(upgrade_transactions@) =~= Seq::new(6, |i: int| ecotone_upgrade_tx(i)));
        }
        let ghost ecotone = upgrade_transactions@;
        if self.rollup_cfg.is_fjord_active(timestamp) && !self.rollup_cfg.is_fjord_active(
            parent_timestamp,
        ) {
            let mut fjord = Hardforks::fjord_txs();
            let ghost given = fjord@;
            upgrade_transactions.append(&mut fjord);
            proof {
                assert(contents(given) =~= Seq::new(3, |i: int| fjord_upgrade_tx(i)));
                assert(contents(upgrade_transactions@) =~= contents(ecotone) + contents(given));
            }
        }
        assert(contents(upgrade_transactions@) =~= upgrades(
            *self.rollup_cfg,
            parent_timestamp as int,
            timestamp as int,
        ));
        upgrade_transactions
    }

    /// The payload attributes, once all that they are made of is known.
    pub fn payload_attributes(
        &self,
        l2_parent: L2BlockInfo,
        sys_config: SystemConfig,
        l1_header: &Header,
        deposits: Option<Vec<Bytes>>,
        l1_info: L1BlockInfoTx,
        envelope: OpTxEnvelope,
    ) -> (attributes: OptimismPayloadAttributes)
        requires
            next_l2_time(*self.rollup_cfg, l2_parent) <= u64::MAX,
        ensures
            payload_view(attributes) == payload(
                *self.rollup_cfg,
                l2_parent,
                sys_config,
                *l1_header,
                deposit_contents(deposits),
                l1_info,
                envelope,
            ),
            attributes.payload_attributes.timestamp == l2_parent.block_info.timestamp
                + self.rollup_cfg.block_time,
            attributes.payload_attributes.prev_randao == l1_header.mix_hash,
            attributes.gas_limit == Some(sys_config.gas_limit),
            attributes.no_tx_pool == Some(true),
            attributes.transactions is Some,
    {
        let next_l2_time: u64 = l2_parent.block_info.timestamp + self.rollup_cfg.block_time;
        let mut upgrade_transactions = self.upgrade_transactions(
            l2_parent.block_info.timestamp,
            next_l2_time,
        );
        let ghost upgrade_seq = upgrade_transactions@;

        let l1_info_tx_envelope = match envelope {
            OpTxEnvelope::Deposit(mut deposit_tx) => {
                deposit_tx.input = l1_info.encode_calldata();
                OpTxEnvelope::Deposit(deposit_tx)
            },
            other => other,
        };
        let mut encoded_l1_info_tx: Vec<u8> = Vec::new();
        encode_2718(&l1_info_tx_envelope, &mut encoded_l1_info_tx);
        assert(encoded_l1_info_tx@ =~= envelope_encoding(carrying(envelope, l1_info)));

        let mut txs: Vec<Bytes> = Vec::new();
        txs.push(bytes_from_vec(encoded_l1_info_tx));
        let ghost first = txs@;
        let ghost deposit_seq = if deposits is Some {
            deposits->0@
        } else {
            Seq::<Bytes>::empty()
        };
        if let Some(deposit_transactions) = deposits {
            let mut deposit_transactions = deposit_transactions;
            txs.append(&mut deposit_transactions);
        }
        txs.append(&mut upgrade_transactions);
        proof {
            assert(txs@ =~= first + deposit_seq + upgrade_seq);
            assert(contents(txs@) =~= contents(first) + contents(deposit_seq) + contents(
                upgrade_seq,
            ));
            assert(contents(deposit_seq) =~= included(deposit_contents(deposits)));
            assert(contents(first) =~= seq![envelope_encoding(carrying(envelope, l1_info))]);
        }

        let mut withdrawals = None;
        if self.rollup_cfg.is_canyon_active(next_l2_time) {
            withdrawals = Some(Vec::new());
        }
        let mut parent_beacon_root: Option<FixedBytes<32>> = None;
        if self.rollup_cfg.is_ecotone_active(next_l2_time) {
            // If the parent beacon root is not available, default to the zero hash.
            parent_beacon_root = match l1_header.parent_beacon_block_root {
                Some(root) => Some(root),
                None => Some(FixedBytes(ZERO_HASH)),
            };
        }
        let attributes = OptimismPayloadAttributes {
            payload_attributes: PayloadAttributes {
                timestamp: next_l2_time,
                prev_randao: l1_header.mix_hash,
                suggested_fee_recipient: Address(FixedBytes(SEQUENCER_FEE_VAULT_ADDRESS)),
                withdrawals,
                parent_beacon_block_root: parent_beacon_root,
            },
            transactions: Some(txs),
            no_tx_pool: Some(true),
            gas_limit: Some(sys_config.gas_limit),
        };
        assert(payload_view(attributes) =~= payload(
            *self.rollup_cfg,
            l2_parent,
            sys_config,
            *l1_header,
            deposit_contents(deposits),
            l1_info,
            envelope,
        ));
        attributes
    }

    /// What a job asks for.
    pub fn request<'a>(&self, job: &'a PayloadJob) -> (request: Request<'a>)
        ensures
            request == requested(*self.rollup_cfg, *job),
    {
        match &job.stage {
            Stage::AwaitingConfig => Request::FetchSystemConfig {
                number: job.l2_parent.block_info.number,
            },
            Stage::AwaitingHeader { .. } => Request::FetchHeader { hash: job.epoch.hash },
            Stage::AwaitingReceipts { .. } => Request::FetchReceipts { hash: job.epoch.hash },
            Stage::AwaitingDeposits { receipts, .. } => Request::DeriveDeposits {
                hash: job.epoch.hash,
                receipts,
                deposit_contract: self.rollup_cfg.deposit_contract_address,
            },
            Stage::AwaitingGasPrice { l1_info, .. } => Request::SampleGasPrice {
                hash: l1_info.block_hash,
            },
        }
    }

    /// Goes on with a job once its request was answered. The attributes are ready exactly when the
    /// last reply that they need completes them, and a reply that completes them is no error.
    pub fn advance(&self, job: PayloadJob, reply: Reply) -> (step: Step)
        requires
            job.wf(*self.rollup_cfg),
            answers(reply, job.stage),
            in_range(*self.rollup_cfg, job, reply),
        ensures
            step@ == next_step(*self.rollup_cfg, job, reply),
            step matches Step::Pending(next) ==> next.wf(*self.rollup_cfg),
            (step matches Step::Done(Ok(_))) <==> completes(*self.rollup_cfg, job, reply) && is_last(
                *self.rollup_cfg,
                job,
                reply,
            ),
            completes(*self.rollup_cfg, job, reply) ==> !(step matches Step::Done(Err(_))),
    {
        let PayloadJob { l2_parent, epoch, stage } = job;
        match (stage, reply) {
            (Stage::AwaitingConfig, Reply::SystemConfigReply(Ok(sys_config))) => {
                self.resume_with_config(l2_parent, epoch, sys_config)
            },
            (Stage::AwaitingHeader { sys_config }, Reply::HeaderReply(Ok(l1_header))) => {
                self.resume_with_header(l2_parent, epoch, sys_config, l1_header)
            },
            (Stage::AwaitingReceipts { sys_config, l1_header }, Reply::ReceiptsReply(Ok(receipts)))
                => {
                let stage = Stage::AwaitingDeposits { sys_config, l1_header, receipts };
                Step::Pending(PayloadJob { l2_parent, epoch, stage })
            },
            (
                Stage::AwaitingDeposits { sys_config, l1_header, receipts },
                Reply::DepositsReply(Ok(deposits)),
            ) => {
                let updated = self.update_system_config(sys_config, &receipts, l1_header.timestamp);
                self.resume_with_update(l2_parent, epoch, updated, l1_header, deposits)
            },
            (
                Stage::AwaitingGasPrice { sys_config, l1_header, deposits, l1_info, envelope },
                Reply::GasPriceReply(Ok(base_fee)),
            ) => {
                let mut ecotone_tx = l1_info;
                ecotone_tx.base_fee = base_fee;
                let block_info = L1BlockInfoTx::Ecotone(ecotone_tx);
                Step::Done(
                    Ok(
                        self.payload_attributes(
                            l2_parent,
                            sys_config,
                            &l1_header,
                            deposits,
                            block_info,
                            envelope,
                        ),
                    ),
                )
            },
            (_, Reply::SystemConfigReply(Err(text))) => {
                Step::Done(Err(PipelineError::Provider(text).temp()))
            },
            (_, Reply::HeaderReply(Err(text))) => {
                Step::Done(Err(PipelineError::Provider(text).temp()))
            },
            (_, Reply::ReceiptsReply(Err(text))) => {
                Step::Done(Err(PipelineError::Provider(text).temp()))
            },
            (_, Reply::DepositsReply(Err(error))) => {
                Step::Done(Err(PipelineError::BadEncoding(error).crit()))
            },
            (_, Reply::GasPriceReply(Err(error))) => Step::Done(Err(error)),
            _ => vstd::pervasive::unreached(),
        }
    }

    /// As [`advance`](Self::advance), but nothing where a number that comes up is out of range.
    pub fn checked_advance(&self, job: PayloadJob, reply: Reply) -> (step: Option<Step>)
        requires
            job.wf(*self.rollup_cfg),
            answers(reply, job.stage),
        ensures
            match step {
                Some(step) => {
                    &&& in_range(*self.rollup_cfg, job, reply)
                    &&& step@ == next_step(*self.rollup_cfg, job, reply)
                    &&& step matches Step::Pending(next) ==> next.wf(*self.rollup_cfg)
                    &&& (step matches Step::Done(Ok(_))) <==> completes(*self.rollup_cfg, job, reply)
                        && is_last(*self.rollup_cfg, job, reply)
                    &&& completes(*self.rollup_cfg, job, reply) ==> !(step matches Step::Done(
                        Err(_),
                    ))
                },
                None => !in_range(*self.rollup_cfg, job, reply),
            },
    {
        let fits = match (&job.stage, &reply) {
            (Stage::AwaitingHeader { .. }, Reply::HeaderReply(Ok(l1_header))) => {
                job.l2_parent.l1_origin.number != job.epoch.number || self.check_origin(
                    &job.l2_parent,
                    &job.epoch,
                    l1_header,
                )
            },
            (
                Stage::AwaitingDeposits { sys_config, l1_header, receipts },
                Reply::DepositsReply(Ok(_)),
            ) => {
                check_gas_limits(receipts, &self.rollup_cfg.l1_system_config_address) && (
                self.check_origin(&job.l2_parent, &job.epoch, l1_header)
                    || self.update_system_config(
                    *sys_config,
                    receipts,
                    l1_header.timestamp,
                ).is_err())
            },
            _ => true,
        };
        if fits {
            Some(self.advance(job, reply))
        } else {
            None
        }
    }

    /// Whether the numbers of a block whose L1 origin is known are in range.
    pub fn check_origin(&self, l2_parent: &L2BlockInfo, epoch: &BlockNumHash, l1_header: &Header)
        -> (fits: bool)
        ensures
            fits == origin_in_range(*self.rollup_cfg, *l2_parent, *epoch, *l1_header),
    {
        if l2_parent.l1_origin.number == epoch.number && l2_parent.seq_num == u64::MAX {
            return false;
        }
        match l2_parent.block_info.timestamp.checked_add(self.rollup_cfg.block_time) {
            Some(next_l2_time) => {
                let ecotone_info = match self.rollup_cfg.ecotone_time {
                    Some(time) => time < next_l2_time,
                    None => false,
                };
                let blob_fee_fits = match l1_header.excess_blob_gas {
                    Some(gas) => gas <= MAX_EXCESS_BLOB_GAS,
                    None => true,
                };
                next_l2_time < l1_header.timestamp || !ecotone_info || blob_fee_fits
            },
            None => false,
        }
    }

    /// The system config after the config updates that are logged in the receipts of an L1 block
    /// of the given time, or the first error among them.
    pub fn update_system_config(
        &self,
        sys_config: SystemConfig,
        receipts: &Vec<Receipt<Log<LogData>>>,
        l1_time: u64,
    ) -> (updated: Result<SystemConfig, SystemConfigUpdateError>)
        requires
            gas_limits_fit(receipts@, self.rollup_cfg.l1_system_config_address),
        ensures
            updated == updated_system_config(sys_config, receipts@, *self.rollup_cfg, l1_time),
            updated is Ok <==> updates_well_formed(
                receipts@,
                self.rollup_cfg.l1_system_config_address,
            ),
            no_log_from(receipts@, self.rollup_cfg.l1_system_config_address) ==> updated == Ok::<
                SystemConfig,
                SystemConfigUpdateError,
            >(sys_config),
    {
        let mut sys_config = sys_config;
        match sys_config.update_with_receipts(receipts.as_slice(), &self.rollup_cfg, l1_time) {
            Ok(_) => Ok(sys_config),
            Err(error) => Err(error),
        }
    }

    /// Goes on once the system config is known.
    fn resume_with_config(
        &self,
        l2_parent: L2BlockInfo,
        epoch: BlockNumHash,
        sys_config: SystemConfig,
    ) -> (step: Step)
        ensures
            step@ == after_config(l2_parent, epoch, sys_config),
            step matches Step::Pending(next) ==> next.wf(*self.rollup_cfg),
    {
        if l2_parent.l1_origin.number == epoch.number && !same_bytes(
            &l2_parent.l1_origin.hash,
            &epoch.hash,
        ) {
            return Step::Done(Err(BuilderError::BlockMismatch(epoch, l2_parent.l1_origin).reset()));
        }
        let stage = Stage::AwaitingHeader { sys_config };
        Step::Pending(PayloadJob { l2_parent, epoch, stage })
    }

    /// Goes on once the header of the epoch is known.
    fn resume_with_header(
        &self,
        l2_parent: L2BlockInfo,
        epoch: BlockNumHash,
        sys_config: SystemConfig,
        l1_header: Header,
    ) -> (step: Step)
        requires
            begins_epoch(l2_parent, epoch) || origin_in_range(
                *self.rollup_cfg,
                l2_parent,
                epoch,
                l1_header,
            ),
            begins_epoch(l2_parent, epoch) || follows_origin(l2_parent, epoch, l1_header),
        ensures
            step@ == after_header(*self.rollup_cfg, l2_parent, epoch, sys_config, l1_header),
            step matches Step::Pending(next) ==> next.wf(*self.rollup_cfg),
            (step matches Step::Done(Ok(_))) <==> !begins_epoch(l2_parent, epoch)
                && l1_header.timestamp <= next_l2_time(*self.rollup_cfg, l2_parent)
                && !ecotone_info(*self.rollup_cfg, next_l2_time(*self.rollup_cfg, l2_parent)),
            !begins_epoch(l2_parent, epoch) && l1_header.timestamp <= next_l2_time(
                *self.rollup_cfg,
                l2_parent,
            ) ==> !(step matches Step::Done(Err(_))),
    {
        // If the L1 origin changes in this block, then it is the first of its epoch, and the
        // receipts of the L1 origin are needed.
        if l2_parent.l1_origin.number != epoch.number {
            if !same_bytes(&l2_parent.l1_origin.hash, &l1_header.parent_hash) {
                return Step::Done(
                    Err(
                        BuilderError::BlockMismatchEpochReset(
                            epoch,
                            l2_parent.l1_origin,
                            l1_header.parent_hash,
                        ).reset(),
                    ),
                );
            }
            let stage = Stage::AwaitingReceipts { sys_config, l1_header };
            return Step::Pending(PayloadJob { l2_parent, epoch, stage });
        }
        self.resume_on_origin(l2_parent, epoch, sys_config, l1_header, None)
    }

    /// Goes on once the config updates of the epoch were applied, or one of them was malformed.
    pub fn resume_with_update(
        &self,
        l2_parent: L2BlockInfo,
        epoch: BlockNumHash,
        updated: Result<SystemConfig, SystemConfigUpdateError>,
        l1_header: Header,
        deposits: Vec<Bytes>,
    ) -> (step: Step)
        requires
            begins_epoch(l2_parent, epoch),
            follows_origin(l2_parent, epoch, l1_header),
            updated is Ok ==> origin_in_range(*self.rollup_cfg, l2_parent, epoch, l1_header),
        ensures
            step@ == after_update(
                *self.rollup_cfg,
                l2_parent,
                epoch,
                updated,
                l1_header,
                deposits,
            ),
            step matches Step::Pending(next) ==> next.wf(*self.rollup_cfg),
            (step matches Step::Done(Ok(_))) <==> updated is Ok && l1_header.timestamp
                <= next_l2_time(*self.rollup_cfg, l2_parent) && !ecotone_info(
                *self.rollup_cfg,
                next_l2_time(*self.rollup_cfg, l2_parent),
            ),
            updated is Ok && l1_header.timestamp <= next_l2_time(*self.rollup_cfg, l2_parent) ==> !(
            step matches Step::Done(Err(_))),
    {
        match updated {
            Ok(sys_config) => {
                self.resume_on_origin(l2_parent, epoch, sys_config, l1_header, Some(deposits))
            },
            Err(error) => Step::Done(Err(PipelineError::SystemConfigUpdate(error).crit())),
        }
    }

    /// Goes on once all of the epoch is known.
    pub fn resume_on_origin(
        &self,
        l2_parent: L2BlockInfo,
        epoch: BlockNumHash,
        sys_config: SystemConfig,
        l1_header: Header,
        deposits: Option<Vec<Bytes>>,
    ) -> (step: Step)
        requires
            follows_origin(l2_parent, epoch, l1_header),
            deposits is Some <==> begins_epoch(l2_parent, epoch),
            origin_in_range(*self.rollup_cfg, l2_parent, epoch, l1_header),
        ensures
            step@ == after_origin(
                *self.rollup_cfg,
                l2_parent,
                epoch,
                sys_config,
                l1_header,
                deposits,
            ),
            step matches Step::Pending(next) ==> next.wf(*self.rollup_cfg),
            (step matches Step::Done(Ok(_))) <==> l1_header.timestamp <= next_l2_time(
                *self.rollup_cfg,
                l2_parent,
            ) && !ecotone_info(*self.rollup_cfg, next_l2_time(*self.rollup_cfg, l2_parent)),
            l1_header.timestamp <= next_l2_time(*self.rollup_cfg, l2_parent) ==> !(
            step matches Step::Done(Err(_))),
    {
        let sequence_number: u64 = if l2_parent.l1_origin.number != epoch.number {
            0
        } else {
            l2_parent.seq_num + 1
        };
        // Sanity check that the L1 origin was selected so as to maintain the time invariant
        // between L1 and L2.
        let next_l2_time: u64 = l2_parent.block_info.timestamp + self.rollup_cfg.block_time;
        if next_l2_time < l1_header.timestamp {
            return Step::Done(
                Err(
                    BuilderError::BrokenTimeInvariant(
                        l2_parent.l1_origin,
                        next_l2_time,
                        BlockNumHash { hash: l1_header.hash_slow(), number: l1_header.number },
                        l1_header.timestamp,
                    ).reset(),
                ),
            );
        }
        let l1_info = L1BlockInfoTx::try_new_with_deposit_tx(
            &self.rollup_cfg,
            &sys_config,
            sequence_number,
            &l1_header,
            next_l2_time,
        );
        self.resume_with_l1_info(l2_parent, epoch, sys_config, l1_header, deposits, l1_info)
    }

    /// Goes on once the L1 info was made, or could not be made.
    pub fn resume_with_l1_info(
        &self,
        l2_parent: L2BlockInfo,
        epoch: BlockNumHash,
        sys_config: SystemConfig,
        l1_header: Header,
        deposits: Option<Vec<Bytes>>,
        l1_info: Result<(L1BlockInfoTx, OpTxEnvelope), BlockInfoError>,
    ) -> (step: Step)
        requires
            next_l2_time(*self.rollup_cfg, l2_parent) <= u64::MAX,
        ensures
            step@ == after_l1_info(
                *self.rollup_cfg,
                l2_parent,
                epoch,
                sys_config,
                l1_header,
                deposits,
                l1_info,
            ),
    {
        match l1_info {
            Ok((L1BlockInfoTx::Bedrock(l1_info), envelope)) => {
                let block_info = L1BlockInfoTx::Bedrock(l1_info);
                Step::Done(
                    Ok(
                        self.payload_attributes(
                            l2_parent,
                            sys_config,
                            &l1_header,
                            deposits,
                            block_info,
                            envelope,
                        ),
                    ),
                )
            },
            Ok((L1BlockInfoTx::Ecotone(l1_info), envelope)) => {
                let stage = Stage::AwaitingGasPrice {
                    sys_config,
                    l1_header,
                    deposits,
                    l1_info,
                    envelope,
                };
                Step::Pending(PayloadJob { l2_parent, epoch, stage })
            },
            Err(error) => {
                let text = block_info_error_to_string(&error);
                Step::Done(
                    Err(PipelineError::AttributesBuilder(BuilderError::Custom(text)).crit()),
                )
            },
        }
    }
}

} // verus!
