//! What each reply leads to.
use alloy_consensus::Header;
use alloy_eips::BlockNumHash;
use alloy_primitives::Bytes;
use op_alloy_consensus::OpTxEnvelope;
use op_alloy_genesis::{RollupConfig, SystemConfig, SystemConfigUpdateError};
use op_alloy_protocol::block_info::BlockInfoError;
use op_alloy_protocol::{L1BlockInfoEcotone, L1BlockInfoTx, L2BlockInfo};
use vstd::prelude::*;

use crate::errors::{BuilderErrorView, PipelineErrorKindView, PipelineErrorView};
use crate::forks::ecotone_info;
use crate::job::{
    begins_epoch, follows_origin, place_in_epoch, PayloadJob, Reply, Request, Stage, StepView,
};
use crate::outside::{
    block_info_error_text, header_hash, l1_info_deposit, updated_system_config, MAX_EXCESS_BLOB_GAS,
};
use crate::payload::{contents, next_l2_time, payload};
use crate::receipts::{gas_limits_fit, updates_well_formed};

verus! {

/// The end of a job whose provider failed with the given text.
pub open spec fn provider_failed(text: Seq<char>) -> StepView {
    StepView::Done(Err(PipelineErrorKindView::Temporary(PipelineErrorView::Provider(text))))
}

/// The end of a job after which the pipeline has to be reset.
pub open spec fn reset(error: BuilderErrorView) -> StepView {
    StepView::Done(Err(PipelineErrorKindView::Reset(error)))
}

/// The bytes of the deposits of an epoch.
pub open spec fn deposit_contents(deposits: Option<Vec<Bytes>>) -> Option<Seq<Seq<u8>>> {
    match deposits {
        Some(deposits) => Some(contents(deposits@)),
        None => None,
    }
}

/// Once the system config is known: an epoch that the parent is in must be its L1 origin.
pub open spec fn after_config(
    l2_parent: L2BlockInfo,
    epoch: BlockNumHash,
    sys_config: SystemConfig,
) -> StepView {
    if !begins_epoch(l2_parent, epoch) && l2_parent.l1_origin.hash != epoch.hash {
        reset(BuilderErrorView::BlockMismatch(epoch, l2_parent.l1_origin))
    } else {
        StepView::Pending(
            PayloadJob { l2_parent, epoch, stage: Stage::AwaitingHeader { sys_config } },
        )
    }
}

/// Once the header of the epoch is known: an epoch that the block begins must be the child of the
/// parent's L1 origin, and its receipts are needed.
pub open spec fn after_header(
    config: RollupConfig,
    l2_parent: L2BlockInfo,
    epoch: BlockNumHash,
    sys_config: SystemConfig,
    l1_header: Header,
) -> StepView {
    if !begins_epoch(l2_parent, epoch) {
        after_origin(config, l2_parent, epoch, sys_config, l1_header, None)
    } else if !follows_origin(l2_parent, epoch, l1_header) {
        reset(
            BuilderErrorView::BlockMismatchEpochReset(
                epoch,
                l2_parent.l1_origin,
                l1_header.parent_hash,
            ),
        )
    } else {
        StepView::Pending(
            PayloadJob { l2_parent, epoch, stage: Stage::AwaitingReceipts { sys_config, l1_header } },
        )
    }
}

/// Once the config updates of the epoch were applied, or one of them was malformed.
pub open spec fn after_update(
    config: RollupConfig,
    l2_parent: L2BlockInfo,
    epoch: BlockNumHash,
    updated: Result<SystemConfig, SystemConfigUpdateError>,
    l1_header: Header,
    deposits: Vec<Bytes>,
) -> StepView {
    match updated {
        Ok(sys_config) => after_origin(
            config,
            l2_parent,
            epoch,
            sys_config,
            l1_header,
            Some(deposits),
        ),
        Err(error) => StepView::Done(
            Err(PipelineErrorKindView::Critical(PipelineErrorView::SystemConfigUpdate(error))),
        ),
    }
}

/// Once all of the epoch is known: the block must not be older than its L1 origin, and the L1 info
/// is made.
pub open spec fn after_origin(
    config: RollupConfig,
    l2_parent: L2BlockInfo,
    epoch: BlockNumHash,
    sys_config: SystemConfig,
    l1_header: Header,
    deposits: Option<Vec<Bytes>>,
) -> StepView {
    let time = next_l2_time(config, l2_parent);
    if time < l1_header.timestamp {
        reset(
            BuilderErrorView::BrokenTimeInvariant(
                l2_parent.l1_origin,
                time,
                BlockNumHash { hash: header_hash(l1_header), number: l1_header.number },
                l1_header.timestamp as int,
            ),
        )
    } else {
        after_l1_info(
            config,
            l2_parent,
            epoch,
            sys_config,
            l1_header,
            deposits,
            l1_info_deposit(
                config,
                sys_config,
                place_in_epoch(l2_parent, epoch) as u64,
                l1_header,
                time as u64,
            ),
        )
    }
}

/// Once the L1 info was made: the Bedrock form is used as it is, the Ecotone form waits for the gas
/// price.
pub open spec fn after_l1_info(
    config: RollupConfig,
    l2_parent: L2BlockInfo,
    epoch: BlockNumHash,
    sys_config: SystemConfig,
    l1_header: Header,
    deposits: Option<Vec<Bytes>>,
    l1_info: Result<(L1BlockInfoTx, OpTxEnvelope), BlockInfoError>,
) -> StepView {
    match l1_info {
        Ok((L1BlockInfoTx::Bedrock(l1_info), envelope)) => StepView::Done(
            Ok(
                payload(
                    config,
                    l2_parent,
                    sys_config,
                    l1_header,
                    deposit_contents(deposits),
                    L1BlockInfoTx::Bedrock(l1_info),
                    envelope,
                ),
            ),
        ),
        Ok((L1BlockInfoTx::Ecotone(l1_info), envelope)) => StepView::Pending(
            PayloadJob {
                l2_parent,
                epoch,
                stage: Stage::AwaitingGasPrice {
                    sys_config,
                    l1_header,
                    deposits,
                    l1_info,
                    envelope,
                },
            },
        ),
        Err(error) => StepView::Done(
            Err(
                PipelineErrorKindView::Critical(
                    PipelineErrorView::AttributesBuilder(
                        BuilderErrorView::Custom(block_info_error_text(error)),
                    ),
                ),
            ),
        ),
    }
}

/// The L1 info with a gas price as its base fee.
pub open spec fn with_base_fee(l1_info: L1BlockInfoEcotone, base_fee: u64) -> L1BlockInfoTx {
    L1BlockInfoTx::Ecotone(L1BlockInfoEcotone { base_fee, ..l1_info })
}

/// What a job asks for: the system config as of the parent, the header and the receipts of the
/// epoch, the deposits in those receipts, or the gas price from the L1 block of the L1 info on.
pub open spec fn requested<'a>(config: RollupConfig, job: PayloadJob) -> Request<'a> {
    match job.stage {
        Stage::AwaitingConfig => Request::FetchSystemConfig {
            number: job.l2_parent.block_info.number,
        },
        Stage::AwaitingHeader { .. } => Request::FetchHeader { hash: job.epoch.hash },
        Stage::AwaitingReceipts { .. } => Request::FetchReceipts { hash: job.epoch.hash },
        Stage::AwaitingDeposits { receipts, .. } => Request::DeriveDeposits {
            hash: job.epoch.hash,
            receipts: &receipts,
            deposit_contract: config.deposit_contract_address,
        },
        Stage::AwaitingGasPrice { l1_info, .. } => Request::SampleGasPrice {
            hash: l1_info.block_hash,
        },
    }
}

/// What the reply to the request of a job leads to.
pub open spec fn next_step(config: RollupConfig, job: PayloadJob, reply: Reply) -> StepView {
    let PayloadJob { l2_parent, epoch, stage } = job;
    match (stage, reply) {
        (_, Reply::SystemConfigReply(Err(text))) => provider_failed(text@),
        (_, Reply::HeaderReply(Err(text))) => provider_failed(text@),
        (_, Reply::ReceiptsReply(Err(text))) => provider_failed(text@),
        (_, Reply::DepositsReply(Err(error))) => StepView::Done(
            Err(PipelineErrorKindView::Critical(PipelineErrorView::BadEncoding(error.0@))),
        ),
        (_, Reply::GasPriceReply(Err(error))) => StepView::Done(Err(error@)),
        (Stage::AwaitingConfig, Reply::SystemConfigReply(Ok(sys_config))) => after_config(
            l2_parent,
            epoch,
            sys_config,
        ),
        (Stage::AwaitingHeader { sys_config }, Reply::HeaderReply(Ok(l1_header))) => after_header(
            config,
            l2_parent,
            epoch,
            sys_config,
            l1_header,
        ),
        (Stage::AwaitingReceipts { sys_config, l1_header }, Reply::ReceiptsReply(Ok(receipts))) =>
            StepView::Pending(
            PayloadJob {
                l2_parent,
                epoch,
                stage: Stage::AwaitingDeposits { sys_config, l1_header, receipts },
            },
        ),
        (
            Stage::AwaitingDeposits { sys_config, l1_header, receipts },
            Reply::DepositsReply(Ok(deposits)),
        ) => after_update(
            config,
            l2_parent,
            epoch,
            updated_system_config(sys_config, receipts@, config, l1_header.timestamp),
            l1_header,
            deposits,
        ),
        (
            Stage::AwaitingGasPrice { sys_config, l1_header, deposits, l1_info, envelope },
            Reply::GasPriceReply(Ok(base_fee)),
        ) => StepView::Done(
            Ok(
                payload(
                    config,
                    l2_parent,
                    sys_config,
                    l1_header,
                    deposit_contents(deposits),
                    with_base_fee(l1_info, base_fee),
                    envelope,
                ),
            ),
        ),
        _ => arbitrary(),
    }
}

/// Whether a reply makes known the last of what the attributes are made of, but for the gas price
/// where it is needed, and the block is not older than its L1 origin.
pub open spec fn completes(config: RollupConfig, job: PayloadJob, reply: Reply) -> bool {
    let time = next_l2_time(config, job.l2_parent);
    match (job.stage, reply) {
        (Stage::AwaitingHeader { .. }, Reply::HeaderReply(Ok(l1_header))) => {
            !begins_epoch(job.l2_parent, job.epoch) && l1_header.timestamp <= time
        },
        (Stage::AwaitingDeposits { l1_header, receipts, .. }, Reply::DepositsReply(Ok(_))) => {
            &&& updates_well_formed(receipts@, config.l1_system_config_address)
            &&& l1_header.timestamp <= time
        },
        (Stage::AwaitingGasPrice { .. }, Reply::GasPriceReply(Ok(_))) => true,
        _ => false,
    }
}

/// Whether a reply is the last that a job needs: the Ecotone form of the L1 info needs the gas price,
/// the Bedrock form does not.
pub open spec fn is_last(config: RollupConfig, job: PayloadJob, reply: Reply) -> bool {
    reply is GasPriceReply <==> ecotone_info(config, next_l2_time(config, job.l2_parent))
}

/// Whether the numbers of a block whose L1 origin is known are in range: the sequence number and
/// the time of the block fit, and so does the blob fee of the L1 block where it is needed.
pub open spec fn origin_in_range(
    config: RollupConfig,
    l2_parent: L2BlockInfo,
    epoch: BlockNumHash,
    l1_header: Header,
) -> bool {
    let time = next_l2_time(config, l2_parent);
    &&& place_in_epoch(l2_parent, epoch) <= u64::MAX
    &&& time <= u64::MAX
    &&& l1_header.timestamp <= time && ecotone_info(config, time) ==> (
    l1_header.excess_blob_gas matches Some(gas) ==> gas <= MAX_EXCESS_BLOB_GAS)
}

/// Whether the numbers that come up after a reply are in range.
pub open spec fn in_range(config: RollupConfig, job: PayloadJob, reply: Reply) -> bool {
    match (job.stage, reply) {
        (Stage::AwaitingHeader { .. }, Reply::HeaderReply(Ok(l1_header))) => begins_epoch(
            job.l2_parent,
            job.epoch,
        ) || origin_in_range(config, job.l2_parent, job.epoch, l1_header),
        (
            Stage::AwaitingDeposits { sys_config, l1_header, receipts },
            Reply::DepositsReply(Ok(_)),
        ) => {
            &&& gas_limits_fit(receipts@, config.l1_system_config_address)
            &&& updates_well_formed(receipts@, config.l1_system_config_address) ==> origin_in_range(
                config,
                job.l2_parent,
                job.epoch,
                l1_header,
            )
        },
        _ => true,
    }
}

} // verus!
