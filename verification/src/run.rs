//! Whole runs: what a builder arrives at when a chain answers all its requests.
use alloy_consensus::{Header, Receipt};
use alloy_eips::BlockNumHash;
use alloy_primitives::{Address, Bytes, FixedBytes, Log, LogData};
use op_alloy_consensus::{OpTxEnvelope, TxDeposit};
use op_alloy_genesis::{RollupConfig, SystemConfig, SystemConfigUpdateError};
use op_alloy_protocol::block_info::BlockInfoError;
use op_alloy_protocol::{L1BlockInfoEcotone, L1BlockInfoTx, L2BlockInfo};
use vstd::prelude::*;

use crate::errors::{
    BuilderErrorView, PipelineEncodingError, PipelineErrorKindView, PipelineErrorView, PipelineResult,
};
use crate::forks::active_at;
use crate::gas_price::{
    after_block, block_price, low_64_bits, percentile_price, GasPriceStepView, SamplingView, MEDIAN,
    SAMPLED_BLOCKS,
};
use crate::job::{
    begins_epoch, follows_origin, place_in_epoch, PayloadJob, Reply, Request, Stage, StepView,
};
use crate::outside::{
    block_info_error_text, bytes_contents, envelope_encoding, header_hash, l1_info_calldata,
    l1_info_deposit, updated_system_config,
};
use crate::payload::{
    contents, included, next_l2_time, payload, upgrades, PayloadView, SEQUENCER_FEE_VAULT_ADDRESS,
};
use crate::steps::{deposit_contents, next_step, requested, with_base_fee};

verus! {

/// What L1 and L2 answer to the requests of a builder.
pub struct Chain {
    /// The system config as of each L2 block, by its number.
    pub system_config: spec_fn(u64) -> Result<SystemConfig, String>,
    /// The header of each L1 block, by its hash.
    pub header: spec_fn(FixedBytes<32>) -> Result<Header, String>,
    /// The receipts of each L1 block, by its hash.
    pub receipts: spec_fn(FixedBytes<32>) -> Result<Vec<Receipt<Log<LogData>>>, String>,
    /// The deposits of each L1 block, by its hash, its receipts and the deposit contract.
    pub deposits: spec_fn(FixedBytes<32>, Vec<Receipt<Log<LogData>>>, Address) -> Result<
        Vec<Bytes>,
        PipelineEncodingError,
    >,
    /// The gas price that is sampled from each L1 block on, by its hash.
    pub gas_price: spec_fn(FixedBytes<32>) -> PipelineResult<u64>,
}

/// What a chain answers to a request.
pub open spec fn reply_of(chain: Chain, request: Request) -> Reply {
    match request {
        Request::FetchSystemConfig { number } => Reply::SystemConfigReply(
            (chain.system_config)(number),
        ),
        Request::FetchHeader { hash } => Reply::HeaderReply((chain.header)(hash)),
        Request::FetchReceipts { hash } => Reply::ReceiptsReply((chain.receipts)(hash)),
        Request::DeriveDeposits { hash, receipts, deposit_contract } => Reply::DepositsReply(
            (chain.deposits)(hash, *receipts, deposit_contract),
        ),
        Request::SampleGasPrice { hash } => Reply::GasPriceReply((chain.gas_price)(hash)),
    }
}

/// Where a job stands once a chain has answered up to `replies` requests.
pub open spec fn run(config: RollupConfig, chain: Chain, job: PayloadJob, replies: nat) -> StepView
    decreases replies,
{
    if replies == 0 {
        StepView::Pending(job)
    } else {
        match next_step(config, job, reply_of(chain, requested(config, job))) {
            StepView::Pending(next) => run(config, chain, next, (replies - 1) as nat),
            done => done,
        }
    }
}

/// The system config and the deposits of the L2 block in the epoch with the given header: those of
/// its parent and none, or, where it begins the epoch, what the receipts of the epoch say.
pub open spec fn epoch_data(
    config: RollupConfig,
    chain: Chain,
    l2_parent: L2BlockInfo,
    epoch: BlockNumHash,
    parent_config: SystemConfig,
    l1_header: Header,
) -> Result<(SystemConfig, Option<Vec<Bytes>>), PipelineErrorKindView> {
    if !begins_epoch(l2_parent, epoch) {
        Ok((parent_config, None))
    } else {
        match (chain.receipts)(epoch.hash) {
            Err(text) => Err(PipelineErrorKindView::Temporary(PipelineErrorView::Provider(text@))),
            Ok(receipts) => match (chain.deposits)(
                epoch.hash,
                receipts,
                config.deposit_contract_address,
            ) {
                Err(error) => Err(PipelineErrorKindView::Critical(PipelineErrorView::BadEncoding(error.0@))),
                Ok(deposits) => match updated_system_config(
                    parent_config,
                    receipts@,
                    config,
                    l1_header.timestamp,
                ) {
                    Err(error) => Err(
                        PipelineErrorKindView::Critical(PipelineErrorView::SystemConfigUpdate(error)),
                    ),
                    Ok(sys_config) => Ok((sys_config, Some(deposits))),
                },
            },
        }
    }
}

/// The payload of the L2 block in the epoch with the given header, or why there is none.
pub open spec fn block_on(
    config: RollupConfig,
    chain: Chain,
    l2_parent: L2BlockInfo,
    epoch: BlockNumHash,
    sys_config: SystemConfig,
    l1_header: Header,
    deposits: Option<Vec<Bytes>>,
) -> Result<PayloadView, PipelineErrorKindView> {
    let time = next_l2_time(config, l2_parent);
    let l1_block = BlockNumHash { hash: header_hash(l1_header), number: l1_header.number };
    if time < l1_header.timestamp {
        Err(
            PipelineErrorKindView::Reset(
                BuilderErrorView::BrokenTimeInvariant(
                    l2_parent.l1_origin,
                    time,
                    l1_block,
                    l1_header.timestamp as int,
                ),
            ),
        )
    } else {
        match l1_info_deposit(
            config,
            sys_config,
            place_in_epoch(l2_parent, epoch) as u64,
            l1_header,
            time as u64,
        ) {
            Err(error) => Err(
                PipelineErrorKindView::Critical(
                    PipelineErrorView::AttributesBuilder(
                        BuilderErrorView::Custom(block_info_error_text(error)),
                    ),
                ),
            ),
            Ok((L1BlockInfoTx::Bedrock(l1_info), envelope)) => Ok(
                payload(
                    config,
                    l2_parent,
                    sys_config,
                    l1_header,
                    deposit_contents(deposits),
                    L1BlockInfoTx::Bedrock(l1_info),
                    envelope,
                ),
            ),
            Ok((L1BlockInfoTx::Ecotone(l1_info), envelope)) => match (chain.gas_price)(
                l1_info.block_hash,
            ) {
                Err(error) => Err(error@),
                Ok(base_fee) => Ok(
                    payload(
                        config,
                        l2_parent,
                        sys_config,
                        l1_header,
                        deposit_contents(deposits),
                        with_base_fee(l1_info, base_fee),
                        envelope,
                    ),
                ),
            },
        }
    }
}

/// The payload of the L2 block on top of `l2_parent` with the L1 origin `epoch`, or why there is
/// none.
pub open spec fn prepared(
    config: RollupConfig,
    chain: Chain,
    l2_parent: L2BlockInfo,
    epoch: BlockNumHash,
) -> Result<PayloadView, PipelineErrorKindView> {
    match (chain.system_config)(l2_parent.block_info.number) {
        Err(text) => Err(PipelineErrorKindView::Temporary(PipelineErrorView::Provider(text@))),
        Ok(parent_config) => if !begins_epoch(l2_parent, epoch) && l2_parent.l1_origin.hash
            != epoch.hash {
            Err(
                PipelineErrorKindView::Reset(
                    BuilderErrorView::BlockMismatch(epoch, l2_parent.l1_origin),
                ),
            )
        } else {
            match (chain.header)(epoch.hash) {
                Err(text) => Err(PipelineErrorKindView::Temporary(PipelineErrorView::Provider(text@))),
                Ok(l1_header) => if !follows_origin(l2_parent, epoch, l1_header) {
                    Err(
                        PipelineErrorKindView::Reset(
                            BuilderErrorView::BlockMismatchEpochReset(
                                epoch,
                                l2_parent.l1_origin,
                                l1_header.parent_hash,
                            ),
                        ),
                    )
                } else {
                    match epoch_data(config, chain, l2_parent, epoch, parent_config, l1_header) {
                        Err(error) => Err(error),
                        Ok((sys_config, deposits)) => block_on(
                            config,
                            chain,
                            l2_parent,
                            epoch,
                            sys_config,
                            l1_header,
                            deposits,
                        ),
                    }
                },
            }
        },
    }
}

/// The L1 block that lies `generations` before the one with the given hash, as far as its
/// descendants can be fetched. `fetch` gives the parent of each block, and the gas prices that its
/// transactions name.
pub open spec fn ancestor(
    fetch: spec_fn(FixedBytes<32>) -> Option<(FixedBytes<32>, Seq<Option<u128>>)>,
    hash: FixedBytes<32>,
    generations: nat,
) -> Option<FixedBytes<32>>
    decreases generations,
{
    if generations == 0 {
        Some(hash)
    } else {
        match ancestor(fetch, hash, (generations - 1) as nat) {
            Some(child) => match fetch(child) {
                Some((parent, _)) => Some(parent),
                None => None,
            },
            None => None,
        }
    }
}

/// The median gas price of the L1 block that lies `generations` before the one with the given
/// hash.
pub open spec fn ancestor_price(
    fetch: spec_fn(FixedBytes<32>) -> Option<(FixedBytes<32>, Seq<Option<u128>>)>,
    hash: FixedBytes<32>,
    generations: nat,
) -> u128 {
    block_price((fetch(ancestor(fetch, hash, generations)->0)->0).1, MEDIAN as int)
}

/// Where the sampling stands once up to `blocks` blocks were fetched.
pub open spec fn run_sampling(
    fetch: spec_fn(FixedBytes<32>) -> Option<(FixedBytes<32>, Seq<Option<u128>>)>,
    sampling: SamplingView,
    blocks: nat,
) -> GasPriceStepView
    decreases blocks,
{
    if blocks == 0 {
        GasPriceStepView::Pending(sampling)
    } else {
        match after_block(sampling, fetch(sampling.block_hash)) {
            GasPriceStepView::Pending(next) => run_sampling(fetch, next, (blocks - 1) as nat),
            done => done,
        }
    }
}

/// The gas price that is sampled from the L1 block with the given hash on: the median over that
/// block and its twenty closest ancestors of the median gas price of each, in 64 bits. It is missing
/// if one of them cannot be fetched.
pub open spec fn sampled_price(
    fetch: spec_fn(FixedBytes<32>) -> Option<(FixedBytes<32>, Seq<Option<u128>>)>,
    hash: FixedBytes<32>,
) -> Result<u64, PipelineErrorKindView> {
    if ancestor(fetch, hash, SAMPLED_BLOCKS as nat) is Some {
        let prices = Seq::new(
            SAMPLED_BLOCKS as nat,
            |i: int| ancestor_price(fetch, hash, i as nat),
        );
        Ok(low_64_bits(percentile_price(prices, MEDIAN as int)))
    } else {
        Err(PipelineErrorKindView::Temporary(PipelineErrorView::MissingL1Data))
    }
}

/// A run that a chain answers ends after at most five replies, with the payload that the chain
/// determines.
pub proof fn a_run_prepares_the_payload(
    config: RollupConfig,
    chain: Chain,
    l2_parent: L2BlockInfo,
    epoch: BlockNumHash,
)
    ensures
        run(
            config,
            chain,
            PayloadJob { l2_parent, epoch, stage: Stage::AwaitingConfig },
            5,
        ) == StepView::Done(prepared(config, chain, l2_parent, epoch)),
{
    reveal_with_fuel(run, 6);
}

/// Sampling ends after at most as many blocks as are sampled, with the median of the medians.
pub proof fn sampling_finds_the_median_of_the_medians(
    fetch: spec_fn(FixedBytes<32>) -> Option<(FixedBytes<32>, Seq<Option<u128>>)>,
    hash: FixedBytes<32>,
)
    ensures
        run_sampling(
            fetch,
            SamplingView { prices: Seq::empty(), block_hash: hash },
            SAMPLED_BLOCKS as nat,
        ) == GasPriceStepView::Done(sampled_price(fetch, hash)),
{
    let start = SamplingView { prices: Seq::<u128>::empty(), block_hash: hash };
    assert(start.prices =~= Seq::new(0, |i: int| ancestor_price(fetch, hash, i as nat)));
    lemma_sampling(fetch, hash, 0);
}

proof fn lemma_sampling(
    fetch: spec_fn(FixedBytes<32>) -> Option<(FixedBytes<32>, Seq<Option<u128>>)>,
    hash: FixedBytes<32>,
    done: nat,
)
    requires
        done < SAMPLED_BLOCKS,
        ancestor(fetch, hash, done) is Some,
    ensures
        run_sampling(
            fetch,
            SamplingView {
                prices: Seq::new(done, |i: int| ancestor_price(fetch, hash, i as nat)),
                block_hash: ancestor(fetch, hash, done)->0,
            },
            (SAMPLED_BLOCKS - done) as nat,
        ) == GasPriceStepView::Done(sampled_price(fetch, hash)),
    decreases SAMPLED_BLOCKS - done,
{
    let block = ancestor(fetch, hash, done)->0;
    let prices = Seq::new(done, |i: int| ancestor_price(fetch, hash, i as nat));
    let more = Seq::new(done + 1, |i: int| ancestor_price(fetch, hash, i as nat));
    if fetch(block) is None {
        assert(ancestor(fetch, hash, done + 1) is None);
        lemma_missing_ancestor(fetch, hash, done + 1, SAMPLED_BLOCKS as nat);
    } else {
        assert(prices.push(ancestor_price(fetch, hash, done)) =~= more);
        if done + 1 < SAMPLED_BLOCKS {
            lemma_sampling(fetch, hash, done + 1);
        }
    }
}

pub(crate) proof fn lemma_missing_ancestor(
    fetch: spec_fn(FixedBytes<32>) -> Option<(FixedBytes<32>, Seq<Option<u128>>)>,
    hash: FixedBytes<32>,
    near: nat,
    far: nat,
)
    requires
        near <= far,
        ancestor(fetch, hash, near) is None,
    ensures
        ancestor(fetch, hash, far) is None,
    decreases far - near,
{
    if near < far {
        lemma_missing_ancestor(fetch, hash, near, (far - 1) as nat);
    }
}

/// A prepared payload is a template for a block of deposits only. Its time is that of the parent
/// plus the block time, and not before that of its L1 origin, which is the parent's L1 origin or
/// its child. The fees go to the sequencer's vault. It has withdrawals, though none, from Canyon on,
/// and a beacon root from Ecotone on. Its transactions are the one with the L1 info, the deposits of
/// the epoch if it begins one, and those of the upgrades that become active, and no other
/// transactions may join them. The gas limit is that of the system config of the block: the one
/// fetched for the parent, or, where the block begins an epoch, that one after the updates in the
/// receipts of the epoch. The L1 info is made from the same system config, and where it has the
/// Ecotone form it reports the gas price that the chain answers.
pub proof fn a_prepared_payload_is_a_template(
    config: RollupConfig,
    chain: Chain,
    l2_parent: L2BlockInfo,
    epoch: BlockNumHash,
)
    requires
        prepared(config, chain, l2_parent, epoch) is Ok,
    ensures
        ({
            let made = prepared(config, chain, l2_parent, epoch)->Ok_0;
            let time = next_l2_time(config, l2_parent);
            let l1_header = (chain.header)(epoch.hash)->Ok_0;
            let receipts = (chain.receipts)(epoch.hash)->Ok_0;
            let deposits = (chain.deposits)(
                epoch.hash,
                receipts,
                config.deposit_contract_address,
            )->Ok_0;
            let upgrade = upgrades(config, l2_parent.block_info.timestamp as int, time);
            &&& (chain.header)(epoch.hash) is Ok
            &&& follows_origin(l2_parent, epoch, l1_header)
            &&& made.timestamp == time
            &&& l1_header.timestamp <= time
            &&& made.prev_randao == l1_header.mix_hash
            &&& made.suggested_fee_recipient == Address(FixedBytes(SEQUENCER_FEE_VAULT_ADDRESS))
            &&& made.withdrawals is Some <==> active_at(config.canyon_time, time)
            &&& made.withdrawals is Some ==> made.withdrawals->0.len() == 0
            &&& made.parent_beacon_block_root is Some <==> active_at(config.ecotone_time, time)
            &&& made.no_tx_pool == Some(true)
            &&& made.transactions is Some
            &&& made.transactions->0.len() > 0
            &&& made.transactions->0.skip(1) == if begins_epoch(l2_parent, epoch) {
                contents(deposits@) + upgrade
            } else {
                upgrade
            }
            &&& (chain.system_config)(l2_parent.block_info.number) matches Ok(parent_config) && {
                let new_epoch = l2_parent.l1_origin.number != epoch.number;
                let updated = updated_system_config(
                    parent_config,
                    receipts@,
                    config,
                    l1_header.timestamp,
                );
                let sys_config = if new_epoch {
                    updated->Ok_0
                } else {
                    parent_config
                };
                let place = if new_epoch {
                    0u64
                } else {
                    (l2_parent.seq_num + 1) as u64
                };
                &&& new_epoch ==> {
                    &&& (chain.receipts)(epoch.hash) is Ok
                    &&& (chain.deposits)(
                        epoch.hash,
                        receipts,
                        config.deposit_contract_address,
                    ) is Ok
                    &&& updated is Ok
                    &&& l2_parent.l1_origin.hash == l1_header.parent_hash
                }
                &&& !new_epoch ==> l2_parent.l1_origin.hash == epoch.hash
                &&& made.timestamp == l2_parent.block_info.timestamp + config.block_time
                &&& made.gas_limit == Some(sys_config.gas_limit)
                &&& l1_info_deposit(
                    config,
                    sys_config,
                    place,
                    l1_header,
                    made.timestamp as u64,
                ) matches Ok((l1_info, envelope)) && {
                    let reported = match l1_info {
                        L1BlockInfoTx::Bedrock(info) => l1_info,
                        L1BlockInfoTx::Ecotone(info) => L1BlockInfoTx::Ecotone(
                            L1BlockInfoEcotone {
                                base_fee: (chain.gas_price)(info.block_hash)->Ok_0,
                                ..info
                            },
                        ),
                    };
                    &&& l1_info matches L1BlockInfoTx::Ecotone(info) ==> (chain.gas_price)(
                        info.block_hash,
                    ) is Ok
                    &&& made.transactions->0[0] == envelope_encoding(
                        match envelope {
                            OpTxEnvelope::Deposit(deposit) => OpTxEnvelope::Deposit(
                                TxDeposit { input: l1_info_calldata(reported), ..deposit },
                            ),
                            other => other,
                        },
                    )
                }
            }
        }),
{
    let made = prepared(config, chain, l2_parent, epoch)->Ok_0;
    let time = next_l2_time(config, l2_parent);
    let upgrade = upgrades(config, l2_parent.block_info.timestamp as int, time);
    let l1_header = (chain.header)(epoch.hash)->Ok_0;
    let parent_config = (chain.system_config)(l2_parent.block_info.number)->Ok_0;
    let (sys_config, deposits) = epoch_data(
        config,
        chain,
        l2_parent,
        epoch,
        parent_config,
        l1_header,
    )->Ok_0;
    assert(made.transactions->0.skip(1) =~= included(deposit_contents(deposits)) + upgrade);
    assert(Seq::<Seq<u8>>::empty() + upgrade =~= upgrade);
}

/// A payload is prepared exactly when the chain answers every request, the epoch is the parent's L1
/// origin or its child, the block is not older than the epoch, no update of the system config is
/// malformed and the L1 info can be made.
pub proof fn a_payload_is_prepared_exactly_when_the_chain_allows_it(
    config: RollupConfig,
    chain: Chain,
    l2_parent: L2BlockInfo,
    epoch: BlockNumHash,
)
    ensures
        prepared(config, chain, l2_parent, epoch) is Ok <==> {
            let time = l2_parent.block_info.timestamp + config.block_time;
            let new_epoch = l2_parent.l1_origin.number != epoch.number;
            let receipts = (chain.receipts)(epoch.hash);
            &&& (chain.system_config)(l2_parent.block_info.number) matches Ok(parent_config)
            &&& (chain.header)(epoch.hash) matches Ok(l1_header)
            &&& l1_header.timestamp <= time
            &&& l2_parent.l1_origin.hash == if new_epoch {
                l1_header.parent_hash
            } else {
                epoch.hash
            }
            &&& new_epoch ==> {
                &&& receipts is Ok
                &&& (chain.deposits)(
                    epoch.hash,
                    receipts->Ok_0,
                    config.deposit_contract_address,
                ) is Ok
                &&& updated_system_config(
                    parent_config,
                    receipts->Ok_0@,
                    config,
                    l1_header.timestamp,
                ) is Ok
            }
            &&& match l1_info_deposit(
                config,
                if new_epoch {
                    updated_system_config(
                        parent_config,
                        receipts->Ok_0@,
                        config,
                        l1_header.timestamp,
                    )->Ok_0
                } else {
                    parent_config
                },
                if new_epoch {
                    0u64
                } else {
                    (l2_parent.seq_num + 1) as u64
                },
                l1_header,
                time as u64,
            ) {
                Ok((L1BlockInfoTx::Bedrock(_), _)) => true,
                Ok((L1BlockInfoTx::Ecotone(info), _)) => (chain.gas_price)(info.block_hash) is Ok,
                Err(_) => false,
            }
        },
{
}

/// What a payload is refused for is told apart: a provider that failed by its text, an epoch that
/// does not follow by the blocks at odds, a block that is too old by the times, and deposits or
/// updates that cannot be read by their error.
pub proof fn a_refused_payload_names_the_reason(
    config: RollupConfig,
    chain: Chain,
    l2_parent: L2BlockInfo,
    epoch: BlockNumHash,
)
    ensures
        ({
            let time = l2_parent.block_info.timestamp + config.block_time;
            let new_epoch = l2_parent.l1_origin.number != epoch.number;
            let refused = prepared(config, chain, l2_parent, epoch);
            match (chain.system_config)(l2_parent.block_info.number) {
                Err(text) => refused == Err::<PayloadView, PipelineErrorKindView>(
                    PipelineErrorKindView::Temporary(PipelineErrorView::Provider(text@)),
                ),
                Ok(parent_config) => if !new_epoch && l2_parent.l1_origin.hash != epoch.hash {
                    refused == Err::<PayloadView, PipelineErrorKindView>(
                        PipelineErrorKindView::Reset(
                            BuilderErrorView::BlockMismatch(epoch, l2_parent.l1_origin),
                        ),
                    )
                } else {
                    match (chain.header)(epoch.hash) {
                        Err(text) => refused == Err::<PayloadView, PipelineErrorKindView>(
                            PipelineErrorKindView::Temporary(PipelineErrorView::Provider(text@)),
                        ),
                        Ok(l1_header) => {
                            let receipts = (chain.receipts)(epoch.hash);
                            let deposits = (chain.deposits)(
                                epoch.hash,
                                receipts->Ok_0,
                                config.deposit_contract_address,
                            );
                            let updated = updated_system_config(
                                parent_config,
                                receipts->Ok_0@,
                                config,
                                l1_header.timestamp,
                            );
                            let follows = l2_parent.l1_origin.hash == l1_header.parent_hash;
                            &&& new_epoch && !follows ==> refused == Err::<
                                PayloadView,
                                PipelineErrorKindView,
                            >(
                                PipelineErrorKindView::Reset(
                                    BuilderErrorView::BlockMismatchEpochReset(
                                        epoch,
                                        l2_parent.l1_origin,
                                        l1_header.parent_hash,
                                    ),
                                ),
                            )
                            &&& new_epoch && follows && receipts is Err ==> refused == Err::<
                                PayloadView,
                                PipelineErrorKindView,
                            >(
                                PipelineErrorKindView::Temporary(
                                    PipelineErrorView::Provider(receipts->Err_0@),
                                ),
                            )
                            &&& new_epoch && follows && receipts is Ok && deposits is Err ==> refused
                                == Err::<PayloadView, PipelineErrorKindView>(
                                PipelineErrorKindView::Critical(
                                    PipelineErrorView::BadEncoding(deposits->Err_0.0@),
                                ),
                            )
                            &&& new_epoch && follows && receipts is Ok && deposits is Ok && updated is Err
                                ==> refused == Err::<PayloadView, PipelineErrorKindView>(
                                PipelineErrorKindView::Critical(
                                    PipelineErrorView::SystemConfigUpdate(updated->Err_0),
                                ),
                            )
                            &&& (new_epoch ==> follows && receipts is Ok && deposits is Ok
                                && updated is Ok) && time < l1_header.timestamp ==> refused == Err::<
                                PayloadView,
                                PipelineErrorKindView,
                            >(
                                PipelineErrorKindView::Reset(
                                    BuilderErrorView::BrokenTimeInvariant(
                                        l2_parent.l1_origin,
                                        time,
                                        BlockNumHash {
                                            hash: header_hash(l1_header),
                                            number: l1_header.number,
                                        },
                                        l1_header.timestamp as int,
                                    ),
                                ),
                            )
                        },
                    }
                },
            }
        }),
{
}

/// For a block that begins an epoch and whose receipts update the system config, the payload and the
/// L1 info are made from the updated config, whatever upgrades are active, and the block is the first
/// of its epoch.
pub proof fn a_new_epoch_applies_its_config_updates(
    config: RollupConfig,
    chain: Chain,
    l2_parent: L2BlockInfo,
    epoch: BlockNumHash,
    parent_config: SystemConfig,
    l1_header: Header,
    receipts: Vec<Receipt<Log<LogData>>>,
    deposits: Vec<Bytes>,
    updated: SystemConfig,
    l1_info: L1BlockInfoTx,
    deposit: TxDeposit,
    gas_price: u64,
)
    requires
        l2_parent.l1_origin.number != epoch.number,
        (chain.system_config)(l2_parent.block_info.number) == Ok::<SystemConfig, String>(
            parent_config,
        ),
        (chain.header)(epoch.hash) == Ok::<Header, String>(l1_header),
        l2_parent.l1_origin.hash == l1_header.parent_hash,
        (chain.receipts)(epoch.hash) == Ok::<Vec<Receipt<Log<LogData>>>, String>(receipts),
        (chain.deposits)(epoch.hash, receipts, config.deposit_contract_address) == Ok::<
            Vec<Bytes>,
            PipelineEncodingError,
        >(deposits),
        updated_system_config(parent_config, receipts@, config, l1_header.timestamp) == Ok::<
            SystemConfig,
            SystemConfigUpdateError,
        >(updated),
        l1_header.timestamp <= l2_parent.block_info.timestamp + config.block_time <= u64::MAX,
        l1_info_deposit(
            config,
            updated,
            0,
            l1_header,
            (l2_parent.block_info.timestamp + config.block_time) as u64,
        ) == Ok::<(L1BlockInfoTx, OpTxEnvelope), BlockInfoError>(
            (l1_info, OpTxEnvelope::Deposit(deposit)),
        ),
        l1_info matches L1BlockInfoTx::Ecotone(info) ==> (chain.gas_price)(info.block_hash)
            == PipelineResult::<u64>::Ok(gas_price),
    ensures
        prepared(config, chain, l2_parent, epoch) matches Ok(made) && {
            let reported = match l1_info {
                L1BlockInfoTx::Bedrock(_) => l1_info,
                L1BlockInfoTx::Ecotone(info) => L1BlockInfoTx::Ecotone(
                    L1BlockInfoEcotone { base_fee: gas_price, ..info },
                ),
            };
            &&& made.gas_limit == Some(updated.gas_limit)
            &&& made.transactions is Some
            &&& made.transactions->0[0] == envelope_encoding(
                OpTxEnvelope::Deposit(TxDeposit { input: l1_info_calldata(reported), ..deposit }),
            )
            &&& forall|i: int|
                0 <= i < deposits@.len() ==> #[trigger] made.transactions->0[1 + i]
                    == bytes_contents(deposits@[i])
        },
{
}

/// Whether the gas price that a chain answers is the one that is sampled from the blocks that
/// `fetch` gives.
pub open spec fn samples_gas_prices(
    chain: Chain,
    fetch: spec_fn(FixedBytes<32>) -> Option<(FixedBytes<32>, Seq<Option<u128>>)>,
) -> bool {
    forall|hash: FixedBytes<32>|
        match #[trigger] (chain.gas_price)(hash) {
            Ok(price) => sampled_price(fetch, hash) == Ok::<u64, PipelineErrorKindView>(price),
            Err(error) => sampled_price(fetch, hash) == Err::<u64, PipelineErrorKindView>(error@),
        }
}

/// The pipeline is reset exactly when the block does not fit the chain: the epoch is neither the
/// parent's L1 origin nor its child, or the block would be older than it.
pub proof fn the_pipeline_is_reset_exactly_when_the_block_does_not_fit(
    config: RollupConfig,
    chain: Chain,
    fetch: spec_fn(FixedBytes<32>) -> Option<(FixedBytes<32>, Seq<Option<u128>>)>,
    l2_parent: L2BlockInfo,
    epoch: BlockNumHash,
)
    requires
        samples_gas_prices(chain, fetch),
    ensures
        (prepared(config, chain, l2_parent, epoch) matches Err(PipelineErrorKindView::Reset(_)))
            <==> ((chain.system_config)(l2_parent.block_info.number) matches Ok(parent_config) && {
            ||| !begins_epoch(l2_parent, epoch) && l2_parent.l1_origin.hash != epoch.hash
            ||| (chain.header)(epoch.hash) matches Ok(l1_header) && {
                ||| !follows_origin(l2_parent, epoch, l1_header)
                ||| {
                    &&& epoch_data(config, chain, l2_parent, epoch, parent_config, l1_header) is Ok
                    &&& next_l2_time(config, l2_parent) < l1_header.timestamp
                }
            }
        }),
{
}

/// The gas price of a payload is sampled from the L1 origin of its block on.
pub proof fn the_gas_price_is_sampled_from_the_origin_on(config: RollupConfig, job: PayloadJob)
    requires
        job.wf(config),
        job.stage is AwaitingGasPrice,
    ensures
        requested(config, job) == (Request::SampleGasPrice {
            hash: header_hash(job.stage->AwaitingGasPrice_l1_header),
        }),
{
}

} // verus!
