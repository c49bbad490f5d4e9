//! The L1 gas price that a payload reports: a median over recent L1 blocks of the median gas price
//! of each.
use alloy_consensus::TxEnvelope;
use alloy_primitives::FixedBytes;
use op_alloy_protocol::BlockInfo;
use vstd::prelude::*;

use crate::builder::StatefulAttributesBuilder;
use crate::errors::{PipelineError, PipelineErrorKindView, PipelineErrorView, PipelineResult};
use crate::outside::{envelope_gas_price, gas_price, sort};

verus! {

/// The gas price of a block in which no transaction names a price, in wei.
pub const DEFAULT_BASE_FEE: u128 = 3_000_000_000;

/// How many L1 blocks are sampled.
pub const SAMPLED_BLOCKS: usize = 21;

/// The percentile that is the median.
pub const MEDIAN: usize = 50;

/// The order of the numbers.
pub open spec fn at_most() -> spec_fn(u128, u128) -> bool {
    |x: u128, y: u128| x <= y
}

/// The numbers of `prices`, each as often as it occurs, in ascending order.
pub open spec fn ascending(prices: Seq<u128>) -> Seq<u128> {
    prices.sort_by(at_most())
}

/// The prices that are named at all, in order.
pub open spec fn named_prices(prices: Seq<Option<u128>>) -> Seq<u128>
    decreases prices.len(),
{
    if prices.len() == 0 {
        Seq::empty()
    } else {
        match prices.last() {
            Some(price) => named_prices(prices.drop_last()).push(price),
            None => named_prices(prices.drop_last()),
        }
    }
}

/// The prices that are named and are not zero, in order.
pub open spec fn positive_prices(prices: Seq<Option<u128>>) -> Seq<u128>
    decreases prices.len(),
{
    if prices.len() == 0 {
        Seq::empty()
    } else {
        match prices.last() {
            Some(price) if price > 0 => positive_prices(prices.drop_last()).push(price),
            _ => positive_prices(prices.drop_last()),
        }
    }
}

/// The sum of the prices.
pub open spec fn total(prices: Seq<u128>) -> int
    decreases prices.len(),
{
    if prices.len() == 0 {
        0
    } else {
        total(prices.drop_last()) + prices.last()
    }
}

/// The mean of the named prices, rounded down, or the default if none is named.
pub open spec fn mean_price(prices: Seq<Option<u128>>) -> int {
    let named = named_prices(prices);
    if named.len() == 0 {
        DEFAULT_BASE_FEE as int
    } else {
        total(named) / named.len() as int
    }
}

/// The place of a percentile among `count` numbers in ascending order.
pub open spec fn percentile_index(count: int, percentile: int) -> int {
    ((count - 1) * percentile) / 100
}

/// The percentile of the prices.
pub open spec fn percentile_price(prices: Seq<u128>, percentile: int) -> u128 {
    ascending(prices)[percentile_index(prices.len() as int, percentile)]
}

/// The percentile of the prices that are named and not zero, or the default if there are none.
pub open spec fn block_price(prices: Seq<Option<u128>>, percentile: int) -> u128 {
    let positive = positive_prices(prices);
    if positive.len() == 0 {
        DEFAULT_BASE_FEE
    } else {
        percentile_price(positive, percentile)
    }
}

/// The gas prices that transactions name.
pub open spec fn envelope_gas_prices(transactions: Seq<TxEnvelope>) -> Seq<Option<u128>> {
    transactions.map_values(|tx: TxEnvelope| envelope_gas_price(tx))
}

/// The lowest 64 bits of a price.
pub open spec fn low_64_bits(price: u128) -> u64 {
    (price % 0x1_0000_0000_0000_0000) as u64
}

/// A run of the sampling: the median gas prices of the blocks that were sampled so far, newest
/// block first, and the hash of the block to sample next.
#[derive(Debug)]
pub struct GasPriceSampling {
    /// The median gas prices of the sampled blocks.
    pub all_median_gas_price: Vec<u128>,
    /// The hash of the next block.
    pub block_hash: FixedBytes<32>,
}

/// What [`GasPriceSampling`] holds.
#[verifier::ext_equal]
pub struct SamplingView {
    /// The median gas prices of the sampled blocks.
    pub prices: Seq<u128>,
    /// The hash of the next block.
    pub block_hash: FixedBytes<32>,
}

impl View for GasPriceSampling {
    type V = SamplingView;

    open spec fn view(&self) -> SamplingView {
        SamplingView { prices: self.all_median_gas_price@, block_hash: self.block_hash }
    }
}

impl GasPriceSampling {
    /// Whether there is still a block to sample.
    pub open spec fn wf(&self) -> bool {
        self@.wf()
    }
}

impl SamplingView {
    /// Whether there is still a block to sample.
    pub open spec fn wf(self) -> bool {
        self.prices.len() < SAMPLED_BLOCKS
    }
}

/// Where a run of the sampling stands after a block.
#[derive(Debug)]
pub enum GasPriceStep {
    /// The block that the run names is to be fetched.
    Pending(GasPriceSampling),
    /// The run is over.
    Done(PipelineResult<u64>),
}

/// What [`GasPriceStep`] holds.
#[verifier::ext_equal]
pub enum GasPriceStepView {
    /// The block that the run names is to be fetched.
    Pending(SamplingView),
    /// The run is over.
    Done(Result<u64, PipelineErrorKindView>),
}

impl View for GasPriceStep {
    type V = GasPriceStepView;

    open spec fn view(&self) -> GasPriceStepView {
        match self {
            GasPriceStep::Pending(sampling) => GasPriceStepView::Pending(sampling@),
            GasPriceStep::Done(Ok(price)) => GasPriceStepView::Done(Ok(*price)),
            GasPriceStep::Done(Err(error)) => GasPriceStepView::Done(Err(error@)),
        }
    }
}

/// Where the sampling stands once the next block is known to have the median `price` and the
/// parent `parent_hash`: one price more and the parent next, or the median of all prices.
pub open spec fn after_price(
    sampling: SamplingView,
    price: u128,
    parent_hash: FixedBytes<32>,
) -> GasPriceStepView {
    let prices = sampling.prices.push(price);
    if prices.len() < SAMPLED_BLOCKS {
        GasPriceStepView::Pending(SamplingView { prices, block_hash: parent_hash })
    } else {
        GasPriceStepView::Done(Ok(low_64_bits(percentile_price(prices, MEDIAN as int))))
    }
}

/// Where the sampling stands once the next block was fetched, with its parent's hash and the gas
/// prices that its transactions name, or could not be fetched.
pub open spec fn after_block(
    sampling: SamplingView,
    block: Option<(FixedBytes<32>, Seq<Option<u128>>)>,
) -> GasPriceStepView {
    match block {
        Some((parent_hash, prices)) => after_price(
            sampling,
            block_price(prices, MEDIAN as int),
            parent_hash,
        ),
        None => GasPriceStepView::Done(
            Err(PipelineErrorKindView::Temporary(PipelineErrorView::MissingL1Data)),
        ),
    }
}

proof fn lemma_order()
    ensures
        vstd::relations::total_ordering(at_most()),
{
}

/// `ascending` is the one arrangement of the numbers in which none precedes a smaller one.
pub proof fn ascending_is_the_sorted_arrangement(prices: Seq<u128>, sorted: Seq<u128>)
    requires
        sorted.to_multiset() == prices.to_multiset(),
        forall|i: int, j: int| 0 <= i <= j < sorted.len() ==> sorted[i] <= sorted[j],
    ensures
        ascending(prices) == sorted,
{
    lemma_order();
    prices.lemma_sort_by_ensures(at_most());
    vstd::seq_lib::lemma_sorted_unique(ascending(prices), sorted, at_most());
}

/// `ascending` holds the same numbers, none before a smaller one.
pub proof fn ascending_arranges(prices: Seq<u128>)
    ensures
        ascending(prices).to_multiset() == prices.to_multiset(),
        ascending(prices).len() == prices.len(),
        forall|i: int, j: int|
            0 <= i <= j < prices.len() ==> ascending(prices)[i] <= ascending(prices)[j],
{
    lemma_order();
    prices.lemma_sort_by_ensures(at_most());
    prices.to_multiset_ensures();
    ascending(prices).to_multiset_ensures();
    assert forall|i: int, j: int| 0 <= i <= j < prices.len() implies ascending(prices)[i]
        <= ascending(prices)[j] by {
        if i < j {
            assert(at_most()(ascending(prices)[i], ascending(prices)[j]));
        }
    }
}

/// The gas prices that transactions name, in order.
pub fn gas_prices(transactions: &Vec<TxEnvelope>) -> (prices: Vec<Option<u128>>)
    ensures
        prices@ == envelope_gas_prices(transactions@),
        forall|i: int|
            0 <= i < transactions@.len() ==> (#[trigger] prices@[i] is Some <==> (
            transactions@[i] is Legacy || transactions@[i] is Eip2930)),
{
    let mut prices: Vec<Option<u128>> = Vec::new();
    let mut i: usize = 0;
    while i < transactions.len()
        invariant
            i <= transactions.len(),
            prices@.len() == i,
            forall|j: int| 0 <= j < i ==> prices@[j] == envelope_gas_price(transactions@[j]),
            forall|j: int|
                0 <= j < i ==> (#[trigger] prices@[j] is Some <==> (transactions@[j] is Legacy
                    || transactions@[j] is Eip2930)),
        decreases transactions.len() - i,
    {
        prices.push(gas_price(&transactions[i]));
        i += 1;
    }
    prices
}

/// The sum of the named prices, or nothing if it does not fit.
pub fn total_gas_price(prices: &Vec<Option<u128>>) -> (sum: Option<u128>)
    ensures
        match sum {
            Some(sum) => sum == total(named_prices(prices@)),
            None => total(named_prices(prices@)) > u128::MAX,
        },
{
    let mut sum: u128 = 0;
    let mut i: usize = 0;
    while i < prices.len()
        invariant
            i <= prices.len(),
            sum == total(named_prices(prices@.take(i as int))),
        decreases prices.len() - i,
    {
        proof {
            lemma_prefix_total(prices@, i + 1);
            lemma_named_prices_step(prices@, i as int);
        }
        if let Some(price) = prices[i] {
            match sum.checked_add(price) {
                Some(larger) => sum = larger,
                None => return None,
            }
        }
        i += 1;
    }
    proof {
        assert(prices@.take(i as int) =~= prices@);
    }
    Some(sum)
}

/// The mean of the named prices, rounded down, or the default if none is named.
pub fn mean_gas_price(prices: &Vec<Option<u128>>) -> (mean: u128)
    requires
        total(named_prices(prices@)) <= u128::MAX,
    ensures
        mean == mean_price(prices@),
{
    let mut count: u128 = 0;
    let mut sum: u128 = 0;
    let mut i: usize = 0;
    while i < prices.len()
        invariant
            i <= prices.len(),
            count <= i,
            count == named_prices(prices@.take(i as int)).len(),
            sum == total(named_prices(prices@.take(i as int))),
            total(named_prices(prices@)) <= u128::MAX,
        decreases prices.len() - i,
    {
        proof {
            lemma_prefix_total(prices@, i + 1);
            lemma_named_prices_step(prices@, i as int);
        }
        if let Some(price) = prices[i] {
            count += 1;
            sum += price;
        }
        i += 1;
    }
    proof {
        assert(prices@.take(i as int) =~= prices@);
    }
    if count == 0 {
        return DEFAULT_BASE_FEE;
    }
    sum / count
}

/// The percentile of the prices that are named and not zero, or the default if there are none.
pub fn block_gas_price(prices: &Vec<Option<u128>>, percentile: usize) -> (price: u128)
    requires
        ({
            let count = positive_prices(prices@).len() as int;
            count > 0 ==> percentile_index(count, percentile as int) < count
        }),
    ensures
        price == block_price(prices@, percentile as int),
{
    let mut positive: Vec<u128> = Vec::new();
    let mut i: usize = 0;
    while i < prices.len()
        invariant
            i <= prices.len(),
            positive@ == positive_prices(prices@.take(i as int)),
        decreases prices.len() - i,
    {
        proof {
            lemma_positive_prices_step(prices@, i as int);
        }
        if let Some(price) = prices[i] {
            if price > 0 {
                positive.push(price);
            }
        }
        i += 1;
    }
    proof {
        assert(prices@.take(i as int) =~= prices@);
    }
    if positive.len() == 0 {
        return DEFAULT_BASE_FEE;
    }
    sorted_percentile(&mut positive, percentile)
}

/// Sorts the prices in place and returns their percentile.
fn sorted_percentile(prices: &mut Vec<u128>, percentile: usize) -> (price: u128)
    requires
        0 < old(prices)@.len(),
        percentile_index(old(prices)@.len() as int, percentile as int) < old(prices)@.len(),
    ensures
        final(prices)@ == ascending(old(prices)@),
        price == percentile_price(old(prices)@, percentile as int),
{
    let ghost given = prices@;
    sort(prices);
    proof {
        ascending_is_the_sorted_arrangement(given, prices@);
        ascending_arranges(given);
    }
    let last: usize = prices.len() - 1;
    proof {
        assert(0 <= last * percentile <= usize::MAX * usize::MAX) by (nonlinear_arith)
            requires
                0 <= last <= usize::MAX,
                0 <= percentile <= usize::MAX,
        ;
        assert(usize::MAX * usize::MAX <= u128::MAX) by (nonlinear_arith)
            requires
                0 <= usize::MAX <= u64::MAX,
        ;
    }
    let index: u128 = (last as u128) * (percentile as u128) / 100;
    prices[index as usize]
}

impl StatefulAttributesBuilder {
    /// The mean of the gas prices that transactions name, rounded down, or the default if none
    /// names one.
    pub fn base_fee_by_transactions(&self, transactions: &Vec<TxEnvelope>) -> (base_fee: u128)
        requires
            total(named_prices(envelope_gas_prices(transactions@))) <= u128::MAX,
        ensures
            base_fee == mean_price(envelope_gas_prices(transactions@)),
    {
        let prices = gas_prices(transactions);
        mean_gas_price(&prices)
    }

    /// As [`base_fee_by_transactions`](Self::base_fee_by_transactions), but nothing where the sum
    /// of the gas prices does not fit.
    pub fn checked_base_fee_by_transactions(&self, transactions: &Vec<TxEnvelope>) -> (base_fee:
        Option<u128>)
        ensures
            match base_fee {
                Some(base_fee) => {
                    &&& total(named_prices(envelope_gas_prices(transactions@))) <= u128::MAX
                    &&& base_fee == mean_price(envelope_gas_prices(transactions@))
                },
                None => total(named_prices(envelope_gas_prices(transactions@))) > u128::MAX,
            },
    {
        let prices = gas_prices(transactions);
        match total_gas_price(&prices) {
            Some(_) => Some(self.base_fee_by_transactions(transactions)),
            None => None,
        }
    }

    /// The percentile of the prices, which are left in ascending order.
    pub fn final_gas_price(&self, all_median_gas_price: &mut Vec<u128>, percentile: usize) -> (price:
        u128)
        requires
            0 < old(all_median_gas_price)@.len(),
            percentile_index(old(all_median_gas_price)@.len() as int, percentile as int) < old(
                all_median_gas_price,
            )@.len(),
        ensures
            final(all_median_gas_price)@ == ascending(old(all_median_gas_price)@),
            price == percentile_price(old(all_median_gas_price)@, percentile as int),
    {
        sorted_percentile(all_median_gas_price, percentile)
    }

    /// The percentile of the gas prices that transactions name, zero left out, or the default if
    /// none names one, as is the case where there are neither legacy transactions nor ones with an
    /// access list. With a percentile of at most 100 every list of transactions will do.
    pub fn median_gas_price(&self, transactions: Vec<TxEnvelope>, percentile: usize) -> (price: u128)
        requires
            ({
                let count = positive_prices(envelope_gas_prices(transactions@)).len() as int;
                count > 0 ==> percentile_index(count, percentile as int) < count
            }),
        ensures
            price == block_price(envelope_gas_prices(transactions@), percentile as int),
            (forall|i: int|
                0 <= i < transactions@.len() ==> !(#[trigger] transactions@[i] is Legacy)
                    && !(transactions@[i] is Eip2930)) ==> price == DEFAULT_BASE_FEE,
    {
        let prices = gas_prices(&transactions);
        proof {
            if forall|i: int|
                0 <= i < transactions@.len() ==> !(#[trigger] transactions@[i] is Legacy)
                    && !(transactions@[i] is Eip2930) {
                lemma_no_named_prices(prices@);
            }
        }
        block_gas_price(&prices, percentile)
    }

    /// Begins to sample the gas price at the L1 block with the given hash.
    pub fn snow_l1_gas_price(&self, hash: FixedBytes<32>) -> (sampling: GasPriceSampling)
        ensures
            sampling.wf(),
            sampling@ == (SamplingView { prices: Seq::empty(), block_hash: hash }),
    {
        GasPriceSampling { all_median_gas_price: Vec::new(), block_hash: hash }
    }

    /// Goes on with the sampling once the block that it named was fetched, with its transactions,
    /// or could not be fetched.
    pub fn sample_block(
        &self,
        sampling: GasPriceSampling,
        block: Result<(BlockInfo, Vec<TxEnvelope>), String>,
    ) -> (step: GasPriceStep)
        requires
            sampling.wf(),
        ensures
            step@ == after_block(
                sampling@,
                match block {
                    Ok((l1_info, transactions)) => Some(
                        (l1_info.parent_hash, envelope_gas_prices(transactions@)),
                    ),
                    Err(_) => None,
                },
            ),
            step matches GasPriceStep::Pending(next) ==> next.wf(),
    {
        match block {
            Ok((l1_info, transactions)) => {
                let price = self.median_gas_price(transactions, MEDIAN);
                self.sample_price(sampling, price, l1_info.parent_hash)
            },
            Err(_) => GasPriceStep::Done(Err(PipelineError::MissingL1Data.temp())),
        }
    }

    /// Goes on with the sampling once the median gas price of the block that it named is known,
    /// and its parent's hash.
    pub fn sample_price(
        &self,
        sampling: GasPriceSampling,
        price: u128,
        parent_hash: FixedBytes<32>,
    ) -> (step: GasPriceStep)
        requires
            sampling.wf(),
        ensures
            step@ == after_price(sampling@, price, parent_hash),
            step matches GasPriceStep::Pending(next) ==> next.wf(),
    {
        let mut prices = sampling.all_median_gas_price;
        prices.push(price);
        if prices.len() < SAMPLED_BLOCKS {
            return GasPriceStep::Pending(
                GasPriceSampling { all_median_gas_price: prices, block_hash: parent_hash },
            );
        }
        let latest = self.final_gas_price(&mut prices, MEDIAN);
        GasPriceStep::Done(Ok((latest % 0x1_0000_0000_0000_0000) as u64))
    }
}

proof fn lemma_named_prices_step(prices: Seq<Option<u128>>, i: int)
    requires
        0 <= i < prices.len(),
    ensures
        named_prices(prices.take(i + 1)) == match prices[i] {
            Some(price) => named_prices(prices.take(i)).push(price),
            None => named_prices(prices.take(i)),
        },
        prices[i] matches Some(price) ==> total(named_prices(prices.take(i + 1))) == total(
            named_prices(prices.take(i)),
        ) + price,
{
    assert(prices.take(i + 1).drop_last() =~= prices.take(i));
    if let Some(price) = prices[i] {
        let before = named_prices(prices.take(i));
        assert(before.push(price).drop_last() =~= before);
    }
}

proof fn lemma_positive_prices_step(prices: Seq<Option<u128>>, i: int)
    requires
        0 <= i < prices.len(),
    ensures
        positive_prices(prices.take(i + 1)) == match prices[i] {
            Some(price) if price > 0 => positive_prices(prices.take(i)).push(price),
            _ => positive_prices(prices.take(i)),
        },
{
    assert(prices.take(i + 1).drop_last() =~= prices.take(i));
}

proof fn lemma_no_named_prices(prices: Seq<Option<u128>>)
    requires
        forall|i: int| 0 <= i < prices.len() ==> #[trigger] prices[i] is None,
    ensures
        positive_prices(prices).len() == 0,
    decreases prices.len(),
{
    if prices.len() > 0 {
        lemma_no_named_prices(prices.drop_last());
    }
}

proof fn lemma_prefix_total(prices: Seq<Option<u128>>, i: int)
    requires
        0 <= i <= prices.len(),
    ensures
        0 <= total(named_prices(prices.take(i))) <= total(named_prices(prices)),
    decreases prices.len() - i,
{
    if i == prices.len() {
        assert(prices.take(i) =~= prices);
        lemma_total_nonnegative(named_prices(prices));
    } else {
        lemma_prefix_total(prices, i + 1);
        lemma_named_prices_step(prices, i);
        lemma_total_nonnegative(named_prices(prices.take(i)));
    }
}

proof fn lemma_total_nonnegative(prices: Seq<u128>)
    ensures
        total(prices) >= 0,
    decreases prices.len(),
{
    if prices.len() > 0 {
        lemma_total_nonnegative(prices.drop_last());
    }
}

} // verus!
