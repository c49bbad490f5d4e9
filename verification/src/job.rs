//! The states of a builder between its requests to L1 and L2.
use alloy_consensus::{Header, Receipt};
use alloy_eips::BlockNumHash;
use alloy_primitives::{Address, Bytes, FixedBytes, Log, LogData};
use op_alloy_consensus::OpTxEnvelope;
use op_alloy_genesis::{RollupConfig, SystemConfig};
use op_alloy_protocol::{L1BlockInfoEcotone, L1BlockInfoTx, L2BlockInfo};
use op_alloy_rpc_types_engine::OptimismPayloadAttributes;
use vstd::prelude::*;

use crate::errors::{PipelineEncodingError, PipelineErrorKindView, PipelineResult};
use crate::forks::ecotone_info;
use crate::outside::describes;
use crate::payload::{next_l2_time, payload_view, PayloadView};

verus! {

/// Payload attributes in the making: the block that they are for, and what is known so far.
#[derive(Debug)]
pub struct PayloadJob {
    /// The parent of the L2 block.
    pub l2_parent: L2BlockInfo,
    /// The L1 origin of the L2 block.
    pub epoch: BlockNumHash,
    /// What is known so far.
    pub stage: Stage,
}

/// What is known of a payload, by what is asked for next.
#[derive(Debug)]
pub enum Stage {
    /// Nothing is known; the system config of the parent is asked for.
    AwaitingConfig,
    /// The header of the epoch is asked for.
    AwaitingHeader {
        /// The system config of the parent.
        sys_config: SystemConfig,
    },
    /// The receipts of the epoch are asked for, which the block begins.
    AwaitingReceipts {
        /// The system config of the parent.
        sys_config: SystemConfig,
        /// The header of the epoch.
        l1_header: Header,
    },
    /// The deposits in the receipts are asked for.
    AwaitingDeposits {
        /// The system config of the parent.
        sys_config: SystemConfig,
        /// The header of the epoch.
        l1_header: Header,
        /// The receipts of the epoch.
        receipts: Vec<Receipt<Log<LogData>>>,
    },
    /// The L1 gas price is asked for.
    AwaitingGasPrice {
        /// The system config of the block.
        sys_config: SystemConfig,
        /// The header of the epoch.
        l1_header: Header,
        /// The deposits, if the block begins the epoch.
        deposits: Option<Vec<Bytes>>,
        /// The L1 info, but for the gas price.
        l1_info: L1BlockInfoEcotone,
        /// The transaction that carries the L1 info.
        envelope: OpTxEnvelope,
    },
}

/// What a builder asks for.
#[derive(Debug)]
pub enum Request<'a> {
    /// The system config as of an L2 block.
    FetchSystemConfig {
        /// The number of the L2 block.
        number: u64,
    },
    /// The header of an L1 block.
    FetchHeader {
        /// The hash of the L1 block.
        hash: FixedBytes<32>,
    },
    /// The receipts of an L1 block.
    FetchReceipts {
        /// The hash of the L1 block.
        hash: FixedBytes<32>,
    },
    /// The deposits of an L1 block.
    DeriveDeposits {
        /// The hash of the L1 block.
        hash: FixedBytes<32>,
        /// The receipts of the L1 block.
        receipts: &'a Vec<Receipt<Log<LogData>>>,
        /// The contract that takes deposits.
        deposit_contract: Address,
    },
    /// The gas price that is sampled from an L1 block on.
    SampleGasPrice {
        /// The hash of the L1 block.
        hash: FixedBytes<32>,
    },
}

/// What came back of a request.
#[derive(Debug)]
pub enum Reply {
    /// The system config, or the text of the provider's error.
    SystemConfigReply(Result<SystemConfig, String>),
    /// The header, or the text of the provider's error.
    HeaderReply(Result<Header, String>),
    /// The receipts, or the text of the provider's error.
    ReceiptsReply(Result<Vec<Receipt<Log<LogData>>>, String>),
    /// The encoded deposits, or why they could not be decoded.
    DepositsReply(Result<Vec<Bytes>, PipelineEncodingError>),
    /// The gas price, or why it could not be sampled.
    GasPriceReply(PipelineResult<u64>),
}

/// Where a builder stands after a reply.
#[derive(Debug)]
pub enum Step {
    /// More is asked for.
    Pending(PayloadJob),
    /// The attributes are ready, or cannot be built.
    Done(PipelineResult<OptimismPayloadAttributes>),
}

/// What [`Step`] holds.
#[verifier::ext_equal]
pub enum StepView {
    /// More is asked for.
    Pending(PayloadJob),
    /// The attributes are ready, or cannot be built.
    Done(Result<PayloadView, PipelineErrorKindView>),
}

impl View for Step {
    type V = StepView;

    open spec fn view(&self) -> StepView {
        match self {
            Step::Pending(job) => StepView::Pending(*job),
            Step::Done(Ok(attributes)) => StepView::Done(Ok(payload_view(*attributes))),
            Step::Done(Err(error)) => StepView::Done(Err(error@)),
        }
    }
}

/// Whether a reply is one to the request of a stage.
pub open spec fn answers(reply: Reply, stage: Stage) -> bool {
    match stage {
        Stage::AwaitingConfig => reply is SystemConfigReply,
        Stage::AwaitingHeader { .. } => reply is HeaderReply,
        Stage::AwaitingReceipts { .. } => reply is ReceiptsReply,
        Stage::AwaitingDeposits { .. } => reply is DepositsReply,
        Stage::AwaitingGasPrice { .. } => reply is GasPriceReply,
    }
}

/// Whether the L2 block on top of `l2_parent` begins the epoch: the L1 origin changes.
pub open spec fn begins_epoch(l2_parent: L2BlockInfo, epoch: BlockNumHash) -> bool {
    l2_parent.l1_origin.number != epoch.number
}

/// Whether the L1 origin of the L2 block follows from that of its parent: it is the same block, or
/// its child.
pub open spec fn follows_origin(
    l2_parent: L2BlockInfo,
    epoch: BlockNumHash,
    l1_header: Header,
) -> bool {
    if begins_epoch(l2_parent, epoch) {
        l2_parent.l1_origin.hash == l1_header.parent_hash
    } else {
        l2_parent.l1_origin.hash == epoch.hash
    }
}

/// The place of the L2 block in its epoch.
pub open spec fn place_in_epoch(l2_parent: L2BlockInfo, epoch: BlockNumHash) -> int {
    if begins_epoch(l2_parent, epoch) {
        0
    } else {
        l2_parent.seq_num + 1
    }
}

impl PayloadJob {
    /// What holds of a job at every stage that a builder with the given config leads to.
    pub open spec fn wf(self, config: RollupConfig) -> bool {
        match self.stage {
            Stage::AwaitingConfig => true,
            Stage::AwaitingHeader { sys_config } => !begins_epoch(self.l2_parent, self.epoch)
                ==> self.l2_parent.l1_origin.hash == self.epoch.hash,
            Stage::AwaitingReceipts { sys_config, l1_header } => {
                &&& begins_epoch(self.l2_parent, self.epoch)
                &&& follows_origin(self.l2_parent, self.epoch, l1_header)
            },
            Stage::AwaitingDeposits { sys_config, l1_header, receipts } => {
                &&& begins_epoch(self.l2_parent, self.epoch)
                &&& follows_origin(self.l2_parent, self.epoch, l1_header)
            },
            Stage::AwaitingGasPrice { sys_config, l1_header, deposits, l1_info, envelope } => {
                &&& follows_origin(self.l2_parent, self.epoch, l1_header)
                &&& deposits is Some <==> begins_epoch(self.l2_parent, self.epoch)
                &&& l1_header.timestamp <= next_l2_time(config, self.l2_parent) <= u64::MAX
                &&& ecotone_info(config, next_l2_time(config, self.l2_parent))
                &&& describes(
                    L1BlockInfoTx::Ecotone(l1_info),
                    l1_header,
                    place_in_epoch(self.l2_parent, self.epoch) as u64,
                )
                &&& envelope is Deposit
            },
        }
    }
}

} // verus!
