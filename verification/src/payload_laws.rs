//! What a payload holds and what each reply leads to, said of the parts that they are made of.
use alloy_consensus::{Header, Receipt};
use alloy_eips::BlockNumHash;
use alloy_primitives::{Bytes, FixedBytes, Log, LogData};
use op_alloy_consensus::{OpTxEnvelope, TxDeposit};
use op_alloy_genesis::{RollupConfig, SystemConfig, SystemConfigUpdateError};
use op_alloy_protocol::block_info::BlockInfoError;
use op_alloy_protocol::{L1BlockInfoEcotone, L1BlockInfoTx, L2BlockInfo};
use op_alloy_rpc_types_engine::OptimismPayloadAttributes;
use vstd::prelude::*;

use crate::errors::{
    BuilderError, BuilderErrorView, PipelineEncodingError, PipelineError, PipelineErrorKind,
    PipelineErrorKindView, PipelineErrorView, ResetError,
};
use crate::forks::{active_at, ecotone_info};
use crate::job::{answers, PayloadJob, Reply, Request, Stage, Step, StepView};
use crate::outside::{
    block_info_error_text, bytes_contents, ecotone_upgrade_tx, envelope_encoding, fjord_upgrade_tx,
    header_hash, l1_info_calldata, l1_info_deposit, updated_system_config,
};
use crate::payload::{carrying, contents, payload, payload_view, upgrades, PayloadView};
use crate::receipts::{gas_limits_fit, updates_well_formed};
use crate::steps::{
    after_l1_info, deposit_contents, in_range, next_step, origin_in_range, requested, with_base_fee,
};

verus! {

/// The time of a payload is that of the parent plus the block time, its randomness that of the L1
/// block, and its gas limit that of the system config. Nobody else may add transactions.
pub proof fn a_payload_has_its_numbers(
    config: RollupConfig,
    l2_parent: L2BlockInfo,
    sys_config: SystemConfig,
    l1_header: Header,
    deposits: Option<Seq<Seq<u8>>>,
    l1_info: L1BlockInfoTx,
    envelope: OpTxEnvelope,
)
    ensures
        ({
            let made = payload(
                config,
                l2_parent,
                sys_config,
                l1_header,
                deposits,
                l1_info,
                envelope,
            );
            &&& made.timestamp == l2_parent.block_info.timestamp + config.block_time
            &&& made.prev_randao == l1_header.mix_hash
            &&& made.gas_limit == Some(sys_config.gas_limit)
            &&& made.no_tx_pool == Some(true)
        }),
{
}

/// The fees of a payload go to the account 0x4200000000000000000000000000000000000011.
pub proof fn a_payload_pays_the_vault(
    config: RollupConfig,
    l2_parent: L2BlockInfo,
    sys_config: SystemConfig,
    l1_header: Header,
    deposits: Option<Seq<Seq<u8>>>,
    l1_info: L1BlockInfoTx,
    envelope: OpTxEnvelope,
)
    ensures
        ({
            let vault = payload(
                config,
                l2_parent,
                sys_config,
                l1_header,
                deposits,
                l1_info,
                envelope,
            ).suggested_fee_recipient.0.0@;
            &&& vault[0] == 0x42
            &&& forall|i: int| 0 < i < 19 ==> #[trigger] vault[i] == 0
            &&& vault[19] == 0x11
        }),
{
}

/// A payload has a list of withdrawals, an empty one, if Canyon is active at its time. It has a
/// beacon root if Ecotone is: that of the L1 block, or 32 zero bytes if the L1 block has none.
pub proof fn a_payload_follows_the_upgrades(
    config: RollupConfig,
    l2_parent: L2BlockInfo,
    sys_config: SystemConfig,
    l1_header: Header,
    deposits: Option<Seq<Seq<u8>>>,
    l1_info: L1BlockInfoTx,
    envelope: OpTxEnvelope,
)
    ensures
        ({
            let made = payload(
                config,
                l2_parent,
                sys_config,
                l1_header,
                deposits,
                l1_info,
                envelope,
            );
            let time = l2_parent.block_info.timestamp + config.block_time;
            &&& made.withdrawals is Some <==> (config.canyon_time matches Some(canyon) && canyon
                <= time)
            &&& made.withdrawals matches Some(withdrawals) ==> withdrawals.len() == 0
            &&& made.parent_beacon_block_root is Some <==> (config.ecotone_time matches Some(
                ecotone,
            ) && ecotone <= time)
            &&& made.parent_beacon_block_root matches Some(root) ==> match l1_header.parent_beacon_block_root {
                Some(given) => root == given,
                None => forall|i: int| 0 <= i < 32 ==> #[trigger] root.0@[i] == 0,
            }
        }),
{
}

/// The transactions of a payload are the encoding of the deposit that carries the L1 info, the
/// deposits that are given, in their order, and those of the upgrades. A deposit carries the L1 info
/// as its calldata and is otherwise left alone.
pub proof fn a_payload_has_its_transactions(
    config: RollupConfig,
    l2_parent: L2BlockInfo,
    sys_config: SystemConfig,
    l1_header: Header,
    deposits: Option<Seq<Seq<u8>>>,
    l1_info: L1BlockInfoTx,
    envelope: OpTxEnvelope,
)
    ensures
        ({
            let made = payload(
                config,
                l2_parent,
                sys_config,
                l1_header,
                deposits,
                l1_info,
                envelope,
            );
            let count = if deposits is Some {
                deposits->0.len() as int
            } else {
                0
            };
            let upgrade = upgrades(
                config,
                l2_parent.block_info.timestamp as int,
                l2_parent.block_info.timestamp + config.block_time,
            );
            made.transactions matches Some(txs) && {
                &&& txs.len() == 1 + count + upgrade.len()
                &&& txs[0] == envelope_encoding(
                    match envelope {
                        OpTxEnvelope::Deposit(deposit) => OpTxEnvelope::Deposit(
                            TxDeposit { input: l1_info_calldata(l1_info), ..deposit },
                        ),
                        other => other,
                    },
                )
                &&& forall|i: int| 0 <= i < count ==> #[trigger] txs[1 + i] == deposits->0[i]
                &&& forall|i: int|
                    0 <= i < upgrade.len() ==> #[trigger] txs[1 + count + i] == upgrade[i]
            }
        }),
{
}

/// A block holds the six transactions of Ecotone if its time is the first that is not before the
/// activation time of Ecotone, and behind them the three of Fjord if it is the first for Fjord.
pub proof fn an_upgrade_is_carried_by_its_first_block(
    config: RollupConfig,
    parent_timestamp: int,
    timestamp: int,
)
    ensures
        ({
            let upgrade = upgrades(config, parent_timestamp, timestamp);
            let ecotone = config.ecotone_time matches Some(time) && parent_timestamp < time
                && time <= timestamp;
            let fjord = config.fjord_time matches Some(time) && parent_timestamp < time
                && time <= timestamp;
            let before = if ecotone {
                6int
            } else {
                0
            };
            &&& upgrade.len() == before + if fjord {
                3int
            } else {
                0
            }
            &&& ecotone ==> forall|i: int|
                0 <= i < 6 ==> #[trigger] upgrade[i] == ecotone_upgrade_tx(i)
            &&& fjord ==> forall|i: int|
                0 <= i < 3 ==> upgrade[before + i] == #[trigger] fjord_upgrade_tx(i)
        }),
{
}

/// An upgrade is active from its activation time on. The L1 info has the Ecotone form only after
/// the activation time of Ecotone.
pub proof fn an_upgrade_is_active_from_its_time_on(
    activation: Option<u64>,
    config: RollupConfig,
    timestamp: int,
)
    ensures
        active_at(activation, timestamp) <==> (activation matches Some(time) && time <= timestamp),
        ecotone_info(config, timestamp) <==> (config.ecotone_time matches Some(time) && time
            < timestamp),
{
}

/// A deposit that carries an L1 info has its calldata and is otherwise what it was. Any other
/// transaction is what it was.
pub proof fn a_deposit_carries_the_l1_info_as_calldata(
    envelope: OpTxEnvelope,
    deposit: TxDeposit,
    l1_info: L1BlockInfoTx,
)
    ensures
        carrying(OpTxEnvelope::Deposit(deposit), l1_info) matches OpTxEnvelope::Deposit(carrier) && {
            &&& carrier.input == l1_info_calldata(l1_info)
            &&& carrier.source_hash == deposit.source_hash
            &&& carrier.from == deposit.from
            &&& carrier.to == deposit.to
            &&& carrier.mint == deposit.mint
            &&& carrier.value == deposit.value
            &&& carrier.gas_limit == deposit.gas_limit
            &&& carrier.is_system_transaction == deposit.is_system_transaction
        },
        !(envelope is Deposit) ==> carrying(envelope, l1_info) == envelope,
{
}

/// The base fee of an L1 info is the gas price that is put in, whatever it was before, and nothing
/// else changes.
pub proof fn the_gas_price_replaces_the_base_fee(l1_info: L1BlockInfoEcotone, gas_price: u64)
    ensures
        with_base_fee(l1_info, gas_price) matches L1BlockInfoTx::Ecotone(tx) && {
            &&& tx.base_fee == gas_price
            &&& tx.number == l1_info.number
            &&& tx.time == l1_info.time
            &&& tx.block_hash == l1_info.block_hash
            &&& tx.sequence_number == l1_info.sequence_number
            &&& tx.batcher_address == l1_info.batcher_address
            &&& tx.blob_base_fee == l1_info.blob_base_fee
            &&& tx.blob_base_fee_scalar == l1_info.blob_base_fee_scalar
            &&& tx.base_fee_scalar == l1_info.base_fee_scalar
        },
{
}

/// The reply with the gas price ends a job with a payload whose first transaction carries the L1
/// info with that price as its base fee, and whose gas limit is that of the job's system config.
pub proof fn the_gas_price_is_reported_first(
    config: RollupConfig,
    l2_parent: L2BlockInfo,
    epoch: BlockNumHash,
    sys_config: SystemConfig,
    l1_header: Header,
    deposits: Option<Vec<Bytes>>,
    l1_info: L1BlockInfoEcotone,
    deposit: TxDeposit,
    gas_price: u64,
)
    ensures
        ({
            let job = PayloadJob {
                l2_parent,
                epoch,
                stage: Stage::AwaitingGasPrice {
                    sys_config,
                    l1_header,
                    deposits,
                    l1_info,
                    envelope: OpTxEnvelope::Deposit(deposit),
                },
            };
            let reported = L1BlockInfoTx::Ecotone(
                L1BlockInfoEcotone { base_fee: gas_price, ..l1_info },
            );
            next_step(config, job, Reply::GasPriceReply(Ok(gas_price))) matches StepView::Done(
                Ok(made),
            ) && {
                &&& made.gas_limit == Some(sys_config.gas_limit)
                &&& made.timestamp == l2_parent.block_info.timestamp + config.block_time
                &&& made.transactions is Some
                &&& made.transactions->0[0] == envelope_encoding(
                    OpTxEnvelope::Deposit(
                        TxDeposit { input: l1_info_calldata(reported), ..deposit },
                    ),
                )
                &&& deposits matches Some(given) ==> forall|i: int|
                    0 <= i < given@.len() ==> #[trigger] made.transactions->0[1 + i]
                        == bytes_contents(given@[i])
                &&& made == payload(
                    config,
                    l2_parent,
                    sys_config,
                    l1_header,
                    match deposits {
                        Some(given) => Some(contents(given@)),
                        None => None,
                    },
                    reported,
                    OpTxEnvelope::Deposit(deposit),
                )
            }
        }),
{
}

/// A gas price that could not be sampled ends a job with the same error.
pub proof fn a_gas_price_error_is_handed_on(
    config: RollupConfig,
    job: PayloadJob,
    error: PipelineErrorKind,
)
    requires
        job.stage is AwaitingGasPrice,
    ensures
        next_step(config, job, Reply::GasPriceReply(Err(error))) == StepView::Done(Err(error@)),
{
}

/// A provider that fails ends a job with an error that may go away, and with the provider's text.
pub proof fn a_failed_provider_may_be_tried_again(config: RollupConfig, job: PayloadJob, text: String)
    ensures
        ({
            let failed = StepView::Done(
                Err(PipelineErrorKindView::Temporary(PipelineErrorView::Provider(text@))),
            );
            &&& job.stage is AwaitingConfig ==> next_step(
                config,
                job,
                Reply::SystemConfigReply(Err(text)),
            ) == failed
            &&& job.stage is AwaitingHeader ==> next_step(
                config,
                job,
                Reply::HeaderReply(Err(text)),
            ) == failed
            &&& job.stage is AwaitingReceipts ==> next_step(
                config,
                job,
                Reply::ReceiptsReply(Err(text)),
            ) == failed
        }),
{
}

/// Deposits that could not be decoded end a job for good.
pub proof fn undecodable_deposits_are_critical(
    config: RollupConfig,
    job: PayloadJob,
    error: PipelineEncodingError,
)
    requires
        job.stage is AwaitingDeposits,
    ensures
        next_step(config, job, Reply::DepositsReply(Err(error))) == StepView::Done(
            Err(PipelineErrorKindView::Critical(PipelineErrorView::BadEncoding(error.0@))),
        ),
{
}

/// The system config is kept for the header of the epoch, unless the epoch has the number of the
/// parent's L1 origin and another hash: then the pipeline is reset.
pub proof fn an_epoch_of_the_same_number_is_the_same_block(
    config: RollupConfig,
    l2_parent: L2BlockInfo,
    epoch: BlockNumHash,
    sys_config: SystemConfig,
)
    ensures
        ({
            let step = next_step(
                config,
                PayloadJob { l2_parent, epoch, stage: Stage::AwaitingConfig },
                Reply::SystemConfigReply(Ok(sys_config)),
            );
            if l2_parent.l1_origin.number == epoch.number && l2_parent.l1_origin.hash
                != epoch.hash {
                step == StepView::Done(
                    Err(
                        PipelineErrorKindView::Reset(
                            BuilderErrorView::BlockMismatch(epoch, l2_parent.l1_origin),
                        ),
                    ),
                )
            } else {
                step == StepView::Pending(
                    PayloadJob { l2_parent, epoch, stage: Stage::AwaitingHeader { sys_config } },
                )
            }
        }),
{
}

/// A new epoch must be the child of the parent's L1 origin, or the pipeline is reset; its receipts
/// are needed, and the deposits in them.
pub proof fn a_new_epoch_is_the_child_of_the_last(
    config: RollupConfig,
    l2_parent: L2BlockInfo,
    epoch: BlockNumHash,
    sys_config: SystemConfig,
    l1_header: Header,
    receipts: Vec<Receipt<Log<LogData>>>,
)
    requires
        l2_parent.l1_origin.number != epoch.number,
    ensures
        ({
            let step = next_step(
                config,
                PayloadJob { l2_parent, epoch, stage: Stage::AwaitingHeader { sys_config } },
                Reply::HeaderReply(Ok(l1_header)),
            );
            let waiting = PayloadJob {
                l2_parent,
                epoch,
                stage: Stage::AwaitingReceipts { sys_config, l1_header },
            };
            &&& l2_parent.l1_origin.hash != l1_header.parent_hash ==> step == StepView::Done(
                Err(
                    PipelineErrorKindView::Reset(
                        BuilderErrorView::BlockMismatchEpochReset(
                            epoch,
                            l2_parent.l1_origin,
                            l1_header.parent_hash,
                        ),
                    ),
                ),
            )
            &&& l2_parent.l1_origin.hash == l1_header.parent_hash ==> step == StepView::Pending(
                waiting,
            )
            &&& next_step(config, waiting, Reply::ReceiptsReply(Ok(receipts)))
                == StepView::Pending(
                PayloadJob {
                    l2_parent,
                    epoch,
                    stage: Stage::AwaitingDeposits { sys_config, l1_header, receipts },
                },
            )
        }),
{
}

/// A block that does not begin an epoch is made from the system config that was fetched for its
/// parent, and the next place in the epoch. It is not older than its L1 origin, or the pipeline is
/// reset.
pub proof fn a_block_within_an_epoch_keeps_the_config(
    config: RollupConfig,
    l2_parent: L2BlockInfo,
    epoch: BlockNumHash,
    sys_config: SystemConfig,
    l1_header: Header,
)
    requires
        l2_parent.l1_origin.number == epoch.number,
    ensures
        ({
            let time = l2_parent.block_info.timestamp + config.block_time;
            let step = next_step(
                config,
                PayloadJob { l2_parent, epoch, stage: Stage::AwaitingHeader { sys_config } },
                Reply::HeaderReply(Ok(l1_header)),
            );
            let made_from = l1_info_deposit(
                config,
                sys_config,
                (l2_parent.seq_num + 1) as u64,
                l1_header,
                time as u64,
            );
            &&& time < l1_header.timestamp ==> step == StepView::Done(
                Err(
                    PipelineErrorKindView::Reset(
                        BuilderErrorView::BrokenTimeInvariant(
                            l2_parent.l1_origin,
                            time,
                            BlockNumHash {
                                hash: header_hash(l1_header),
                                number: l1_header.number,
                            },
                            l1_header.timestamp as int,
                        ),
                    ),
                ),
            )
            &&& time >= l1_header.timestamp ==> match made_from {
                Ok((L1BlockInfoTx::Bedrock(info), OpTxEnvelope::Deposit(deposit))) => {
                    step matches StepView::Done(Ok(made)) && {
                        &&& made.timestamp == time
                        &&& made.gas_limit == Some(sys_config.gas_limit)
                        &&& made.transactions is Some
                        &&& made.transactions->0[0] == envelope_encoding(
                            OpTxEnvelope::Deposit(
                                TxDeposit {
                                    input: l1_info_calldata(L1BlockInfoTx::Bedrock(info)),
                                    ..deposit
                                },
                            ),
                        )
                        &&& made.transactions->0.skip(1) == upgrades(
                            config,
                            l2_parent.block_info.timestamp as int,
                            time,
                        )
                        &&& made == payload(
                            config,
                            l2_parent,
                            sys_config,
                            l1_header,
                            None,
                            L1BlockInfoTx::Bedrock(info),
                            OpTxEnvelope::Deposit(deposit),
                        )
                    }
                },
                Ok((L1BlockInfoTx::Ecotone(l1_info), envelope)) => {
                    step == StepView::Pending(
                        PayloadJob {
                            l2_parent,
                            epoch,
                            stage: Stage::AwaitingGasPrice {
                                sys_config,
                                l1_header,
                                deposits: None,
                                l1_info,
                                envelope,
                            },
                        },
                    )
                },
                Ok((L1BlockInfoTx::Bedrock(info), envelope)) => step == StepView::Done(
                    Ok(
                        payload(
                            config,
                            l2_parent,
                            sys_config,
                            l1_header,
                            None,
                            L1BlockInfoTx::Bedrock(info),
                            envelope,
                        ),
                    ),
                ),
                Err(error) => step == StepView::Done(
                    Err(
                        PipelineErrorKindView::Critical(
                            PipelineErrorView::AttributesBuilder(
                                BuilderErrorView::Custom(block_info_error_text(error)),
                            ),
                        ),
                    ),
                ),
            }
        }),
{
    let time = l2_parent.block_info.timestamp + config.block_time;
    let upgrade = upgrades(config, l2_parent.block_info.timestamp as int, time);
    assert(forall|first: Seq<u8>| (#[trigger] seq![first] + Seq::empty() + upgrade).skip(1) =~= upgrade);
}

/// A block that begins an epoch is made from the system config as the receipts of the epoch update
/// it, whatever upgrades are active, and is the first in the epoch. A malformed update ends the job
/// for good. The block is not older than its L1 origin, or the pipeline is reset.
pub proof fn a_block_that_begins_an_epoch_uses_the_updated_config(
    config: RollupConfig,
    l2_parent: L2BlockInfo,
    epoch: BlockNumHash,
    parent_config: SystemConfig,
    l1_header: Header,
    receipts: Vec<Receipt<Log<LogData>>>,
    deposits: Vec<Bytes>,
)
    requires
        l2_parent.l1_origin.number != epoch.number,
    ensures
        ({
            let time = l2_parent.block_info.timestamp + config.block_time;
            let step = next_step(
                config,
                PayloadJob {
                    l2_parent,
                    epoch,
                    stage: Stage::AwaitingDeposits { sys_config: parent_config, l1_header, receipts },
                },
                Reply::DepositsReply(Ok(deposits)),
            );
            match updated_system_config(parent_config, receipts@, config, l1_header.timestamp) {
                Err(error) => step == StepView::Done(
                    Err(
                        PipelineErrorKindView::Critical(
                            PipelineErrorView::SystemConfigUpdate(error),
                        ),
                    ),
                ),
                Ok(updated) => {
                    &&& time < l1_header.timestamp ==> step == StepView::Done(
                        Err(
                            PipelineErrorKindView::Reset(
                                BuilderErrorView::BrokenTimeInvariant(
                                    l2_parent.l1_origin,
                                    time,
                                    BlockNumHash {
                                        hash: header_hash(l1_header),
                                        number: l1_header.number,
                                    },
                                    l1_header.timestamp as int,
                                ),
                            ),
                        ),
                    )
                    &&& time >= l1_header.timestamp ==> match l1_info_deposit(
                        config,
                        updated,
                        0,
                        l1_header,
                        time as u64,
                    ) {
                        Ok((L1BlockInfoTx::Bedrock(info), OpTxEnvelope::Deposit(deposit))) => {
                            step matches StepView::Done(Ok(made)) && {
                                &&& made.timestamp == time
                                &&& made.gas_limit == Some(updated.gas_limit)
                                &&& made.transactions is Some
                                &&& made.transactions->0[0] == envelope_encoding(
                                    OpTxEnvelope::Deposit(
                                        TxDeposit {
                                            input: l1_info_calldata(L1BlockInfoTx::Bedrock(info)),
                                            ..deposit
                                        },
                                    ),
                                )
                                &&& forall|i: int|
                                    0 <= i < deposits@.len() ==> #[trigger] made.transactions->0[1
                                        + i] == bytes_contents(deposits@[i])
                                &&& made == payload(
                                    config,
                                    l2_parent,
                                    updated,
                                    l1_header,
                                    Some(contents(deposits@)),
                                    L1BlockInfoTx::Bedrock(info),
                                    OpTxEnvelope::Deposit(deposit),
                                )
                            }
                        },
                        Ok((L1BlockInfoTx::Ecotone(l1_info), envelope)) => {
                            step == StepView::Pending(
                                PayloadJob {
                                    l2_parent,
                                    epoch,
                                    stage: Stage::AwaitingGasPrice {
                                        sys_config: updated,
                                        l1_header,
                                        deposits: Some(deposits),
                                        l1_info,
                                        envelope,
                                    },
                                },
                            )
                        },
                        Ok((L1BlockInfoTx::Bedrock(info), envelope)) => step == StepView::Done(
                            Ok(
                                payload(
                                    config,
                                    l2_parent,
                                    updated,
                                    l1_header,
                                    Some(contents(deposits@)),
                                    L1BlockInfoTx::Bedrock(info),
                                    envelope,
                                ),
                            ),
                        ),
                        Err(error) => step == StepView::Done(
                            Err(
                                PipelineErrorKindView::Critical(
                                    PipelineErrorView::AttributesBuilder(
                                        BuilderErrorView::Custom(block_info_error_text(error)),
                                    ),
                                ),
                            ),
                        ),
                    }
                },
            }
        }),
{
}

/// An L1 info of the Bedrock form is put in a payload as it is, and one of the Ecotone form waits for
/// the gas price. One that could not be made ends the job for good, with the text of the error.
pub proof fn an_l1_info_is_used_as_its_form_asks(
    config: RollupConfig,
    l2_parent: L2BlockInfo,
    epoch: BlockNumHash,
    sys_config: SystemConfig,
    l1_header: Header,
    deposits: Option<Vec<Bytes>>,
    l1_info: Result<(L1BlockInfoTx, OpTxEnvelope), BlockInfoError>,
)
    ensures
        match (
            l1_info,
            after_l1_info(config, l2_parent, epoch, sys_config, l1_header, deposits, l1_info),
        ) {
            (Ok((L1BlockInfoTx::Bedrock(info), envelope)), StepView::Done(Ok(made))) => {
                made == payload(
                    config,
                    l2_parent,
                    sys_config,
                    l1_header,
                    match deposits {
                        Some(given) => Some(contents(given@)),
                        None => None,
                    },
                    L1BlockInfoTx::Bedrock(info),
                    envelope,
                )
            },
            (Ok((L1BlockInfoTx::Ecotone(info), carrier)), StepView::Pending(next)) => {
                &&& next.l2_parent == l2_parent
                &&& next.epoch == epoch
                &&& next.stage == (Stage::AwaitingGasPrice {
                    sys_config,
                    l1_header,
                    deposits,
                    l1_info: info,
                    envelope: carrier,
                })
            },
            (
                Err(error),
                StepView::Done(
                    Err(
                        PipelineErrorKindView::Critical(
                            PipelineErrorView::AttributesBuilder(BuilderErrorView::Custom(text)),
                        ),
                    ),
                ),
            ) => text == match error {
                BlockInfoError::L1BlobBaseFeeScalar =>
                    "Failed to parse the L1 blob base fee scalar"@,
                BlockInfoError::BaseFeeScalar => "Failed to parse the base fee scalar"@,
            },
            _ => false,
        },
{
}

/// A job asks for the system config as of the parent, for the header and the receipts of the epoch,
/// for the deposits that the deposit contract logged in those receipts, and for the gas price from
/// the L1 block of the L1 info on.
pub proof fn a_job_asks_for_what_it_lacks<'a>(config: RollupConfig, job: PayloadJob)
    ensures
        match requested::<'a>(config, job) {
            Request::FetchSystemConfig { number } => {
                job.stage is AwaitingConfig && number == job.l2_parent.block_info.number
            },
            Request::FetchHeader { hash } => job.stage is AwaitingHeader && hash == job.epoch.hash,
            Request::FetchReceipts { hash } => {
                job.stage is AwaitingReceipts && hash == job.epoch.hash
            },
            Request::DeriveDeposits { hash, receipts, deposit_contract } => {
                &&& job.stage is AwaitingDeposits
                &&& hash == job.epoch.hash
                &&& *receipts == job.stage->AwaitingDeposits_receipts
                &&& deposit_contract == config.deposit_contract_address
            },
            Request::SampleGasPrice { hash } => {
                &&& job.stage is AwaitingGasPrice
                &&& hash == job.stage->AwaitingGasPrice_l1_info.block_hash
            },
        },
{
}

/// The numbers of a block are in range if its sequence number and its time fit in 64 bits, and if
/// the L1 block has no more excess blob gas than a blob fee can be computed from. The blob fee is
/// only needed for the Ecotone form of the L1 info, and only if the block is not refused before.
pub proof fn a_block_is_in_range_if_its_numbers_fit(
    config: RollupConfig,
    l2_parent: L2BlockInfo,
    epoch: BlockNumHash,
    l1_header: Header,
)
    ensures
        origin_in_range(config, l2_parent, epoch, l1_header) <==> {
            let time = l2_parent.block_info.timestamp + config.block_time;
            &&& l2_parent.l1_origin.number == epoch.number ==> l2_parent.seq_num < u64::MAX
            &&& time <= u64::MAX
            &&& {
                ||| time < l1_header.timestamp
                ||| !(config.ecotone_time matches Some(ecotone) && ecotone < time)
                ||| !(l1_header.excess_blob_gas matches Some(gas) && gas > 192_204_552)
            }
        },
{
}

/// A number can only be out of range once the header of an epoch that goes on is known, or the
/// deposits of one that begins: those of the block, or a gas limit in the receipts. Where an update in
/// the receipts is malformed, those of the block do not come up.
pub proof fn a_reply_is_in_range_if_its_numbers_fit(
    config: RollupConfig,
    job: PayloadJob,
    reply: Reply,
)
    ensures
        in_range(config, job, reply) <==> match job.stage {
            Stage::AwaitingHeader { .. } => match reply {
                Reply::HeaderReply(Ok(l1_header)) => {
                    ||| job.l2_parent.l1_origin.number != job.epoch.number
                    ||| origin_in_range(config, job.l2_parent, job.epoch, l1_header)
                },
                _ => true,
            },
            Stage::AwaitingDeposits { sys_config, l1_header, receipts } => match reply {
                Reply::DepositsReply(Ok(deposits)) => {
                    &&& gas_limits_fit(receipts@, config.l1_system_config_address)
                    &&& {
                        ||| !updates_well_formed(receipts@, config.l1_system_config_address)
                        ||| origin_in_range(config, job.l2_parent, job.epoch, l1_header)
                    }
                },
                _ => true,
            },
            _ => true,
        },
{
}

/// Every request takes the reply of its name, whether it holds data or an error, and no other.
pub proof fn every_request_takes_its_own_reply(reply: Reply, job: PayloadJob, config: RollupConfig)
    ensures
        answers(reply, job.stage) <==> match requested(config, job) {
            Request::FetchSystemConfig { .. } => reply is SystemConfigReply,
            Request::FetchHeader { .. } => reply is HeaderReply,
            Request::FetchReceipts { .. } => reply is ReceiptsReply,
            Request::DeriveDeposits { .. } => reply is DepositsReply,
            Request::SampleGasPrice { .. } => reply is GasPriceReply,
        },
{
}

/// The view of payload attributes shows each of their fields, and the bytes of each transaction in
/// order.
pub proof fn a_payload_view_shows_every_field(attributes: OptimismPayloadAttributes)
    ensures
        ({
            let shown = payload_view(attributes);
            let engine = attributes.payload_attributes;
            &&& shown.timestamp == engine.timestamp
            &&& shown.prev_randao == engine.prev_randao
            &&& shown.suggested_fee_recipient == engine.suggested_fee_recipient
            &&& shown.withdrawals is Some <==> engine.withdrawals is Some
            &&& engine.withdrawals matches Some(withdrawals) ==> shown.withdrawals->0
                == withdrawals@
            &&& shown.parent_beacon_block_root == engine.parent_beacon_block_root
            &&& shown.no_tx_pool == attributes.no_tx_pool
            &&& shown.gas_limit == attributes.gas_limit
            &&& shown.transactions is Some <==> attributes.transactions is Some
            &&& attributes.transactions matches Some(txs) ==> {
                &&& shown.transactions->0.len() == txs@.len()
                &&& forall|i: int|
                    0 <= i < txs@.len() ==> #[trigger] shown.transactions->0[i] == bytes_contents(
                        txs@[i],
                    )
            }
        }),
{
}

/// The contents of transactions are the bytes of each, in order.
pub proof fn contents_are_the_bytes_in_order(transactions: Seq<Bytes>, deposits: Vec<Bytes>, i: int)
    ensures
        contents(transactions).len() == transactions.len(),
        0 <= i < transactions.len() ==> contents(transactions)[i] == bytes_contents(
            transactions[i],
        ),
        deposit_contents(None) is None,
        deposit_contents(Some(deposits)) == Some(contents(deposits@)),
{
}

/// A step shows the job that it goes on with, the payload, or the error.
pub proof fn a_step_shows_what_it_holds(
    job: PayloadJob,
    attributes: OptimismPayloadAttributes,
    error: PipelineErrorKind,
)
    ensures
        Step::Pending(job)@ == StepView::Pending(job),
        Step::Done(Ok(attributes))@ == StepView::Done(
            Ok::<PayloadView, PipelineErrorKindView>(payload_view(attributes)),
        ),
        Step::Done(Err(error))@ == StepView::Done(
            Err::<PayloadView, PipelineErrorKindView>(error@),
        ),
{
}

/// An error shows its kind and all that it holds.
pub proof fn an_error_shows_what_it_holds(
    error: PipelineError,
    reason: BuilderError,
    update: SystemConfigUpdateError,
    encoding: PipelineEncodingError,
    text: String,
    left: BlockNumHash,
    right: BlockNumHash,
    hash: FixedBytes<32>,
    time: u64,
    l1_time: u64,
)
    ensures
        PipelineErrorKind::Temporary(error)@ == PipelineErrorKindView::Temporary(error@),
        PipelineErrorKind::Critical(error)@ == PipelineErrorKindView::Critical(error@),
        PipelineErrorKind::Reset(ResetError::AttributesBuilder(reason))@
            == PipelineErrorKindView::Reset(reason@),
        PipelineError::Provider(text)@ == PipelineErrorView::Provider(text@),
        PipelineError::MissingL1Data@ == PipelineErrorView::MissingL1Data,
        PipelineError::BadEncoding(encoding)@ == PipelineErrorView::BadEncoding(encoding.0@),
        PipelineError::SystemConfigUpdate(update)@ == PipelineErrorView::SystemConfigUpdate(update),
        PipelineError::AttributesBuilder(reason)@ == PipelineErrorView::AttributesBuilder(reason@),
        BuilderError::BlockMismatch(left, right)@ == BuilderErrorView::BlockMismatch(left, right),
        BuilderError::BlockMismatchEpochReset(left, right, hash)@
            == BuilderErrorView::BlockMismatchEpochReset(left, right, hash),
        BuilderError::BrokenTimeInvariant(left, time, right, l1_time)@
            == BuilderErrorView::BrokenTimeInvariant(left, time as int, right, l1_time as int),
        BuilderError::Custom(text)@ == BuilderErrorView::Custom(text@),
{
}

} // verus!
