//! What the gas prices are, said of the prices alone: of how often each is named, of their sum, and
//! of their arrangement in ascending order.
use alloy_consensus::TxEnvelope;
use alloy_primitives::FixedBytes;
use vstd::prelude::*;

use crate::errors::{PipelineError, PipelineErrorKind, PipelineErrorKindView, PipelineErrorView};
use crate::gas_price::{
    after_block, after_price, ascending_is_the_sorted_arrangement, block_price,
    envelope_gas_prices, low_64_bits, mean_price, named_prices, percentile_index, percentile_price,
    positive_prices, total, GasPriceSampling, GasPriceStep, GasPriceStepView, SamplingView,
};
use crate::laws::{
    a_percentile_is_a_price, lemma_named_count, lemma_positive_count, lemma_total_reordered,
};
use crate::outside::envelope_gas_price;
use crate::run::{
    ancestor, ancestor_price, lemma_missing_ancestor, run_sampling, sampled_price,
    sampling_finds_the_median_of_the_medians,
};

verus! {

/// The percentile of prices is the number at place `(n - 1) * percentile / 100`, rounded down, of
/// any arrangement of the `n` prices in which none precedes a smaller one.
pub proof fn a_percentile_has_its_place(prices: Seq<u128>, sorted: Seq<u128>, percentile: int)
    requires
        sorted.to_multiset() == prices.to_multiset(),
        forall|i: int, j: int| 0 <= i <= j < sorted.len() ==> sorted[i] <= sorted[j],
    ensures
        percentile_price(prices, percentile) == sorted[((prices.len() - 1) * percentile) / 100],
{
    ascending_is_the_sorted_arrangement(prices, sorted);
}

/// The gas price of a block is the number at place `(n - 1) * percentile / 100` among the `n` prices
/// above zero that its transactions name, in ascending order. It is three gwei if there are none.
pub proof fn a_block_price_has_its_place(
    prices: Seq<Option<u128>>,
    sorted: Seq<u128>,
    percentile: int,
)
    requires
        forall|price: u128|
            price > 0 ==> #[trigger] sorted.to_multiset().count(price)
                == prices.to_multiset().count(Some(price)),
        sorted.to_multiset().count(0) == 0,
        forall|i: int, j: int| 0 <= i <= j < sorted.len() ==> sorted[i] <= sorted[j],
    ensures
        sorted.len() == 0 ==> block_price(prices, percentile) == 3_000_000_000,
        sorted.len() > 0 ==> block_price(prices, percentile) == sorted[((sorted.len() - 1)
            * percentile) / 100],
{
    let positive = positive_prices(prices);
    assert forall|price: u128|
        sorted.to_multiset().count(price) == positive.to_multiset().count(price) by {
        lemma_positive_count(prices, price);
    }
    assert(sorted.to_multiset() =~= positive.to_multiset());
    positive.to_multiset_ensures();
    sorted.to_multiset_ensures();
    ascending_is_the_sorted_arrangement(positive, sorted);
}

/// The gas price of a block in which a transaction names a price above zero is one of those that are
/// named.
pub proof fn a_block_price_is_a_named_price(
    prices: Seq<Option<u128>>,
    percentile: int,
    named: u128,
)
    requires
        prices.contains(Some(named)),
        named > 0,
        0 <= percentile <= 100,
    ensures
        prices.contains(Some(block_price(prices, percentile))),
        block_price(prices, percentile) > 0,
{
    let positive = positive_prices(prices);
    lemma_positive_count(prices, named);
    prices.to_multiset_ensures();
    positive.to_multiset_ensures();
    assert(prices.to_multiset().count(Some(named)) > 0);
    assert(positive.to_multiset().count(named) > 0);
    assert(positive.contains(named));
    a_percentile_is_a_price(positive, percentile);
    let price = percentile_price(positive, percentile);
    assert(positive.to_multiset().count(price) > 0);
    lemma_positive_count(prices, price);
    assert(prices.to_multiset().count(Some(price)) > 0);
}

/// The mean is the sum of the named prices over how many there are, rounded down: `n` times the mean
/// is at most the sum, and `n` times the next number is more. It is three gwei if no price is named.
pub proof fn a_mean_is_the_sum_over_the_count(prices: Seq<Option<u128>>, named: Seq<u128>)
    requires
        forall|price: u128| #[trigger]
            named.to_multiset().count(price) == prices.to_multiset().count(Some(price)),
    ensures
        named.len() == 0 ==> mean_price(prices) == 3_000_000_000,
        named.len() > 0 ==> {
            let sum = named.fold_left(0int, |sum: int, price: u128| sum + price);
            &&& mean_price(prices) * named.len() <= sum
            &&& sum < (mean_price(prices) + 1) * named.len()
        },
{
    let listed = named_prices(prices);
    assert forall|price: u128|
        named.to_multiset().count(price) == listed.to_multiset().count(price) by {
        lemma_named_count(prices, price);
    }
    assert(named.to_multiset() =~= listed.to_multiset());
    listed.to_multiset_ensures();
    named.to_multiset_ensures();
    lemma_total_reordered(named, listed);
    a_total_adds_up(named);
    let count = named.len() as int;
    if count > 0 {
        let sum = total(named);
        assert((sum / count) * count <= sum < (sum / count + 1) * count) by (nonlinear_arith)
            requires
                count > 0,
        ;
    }
}

/// A total is what adding the prices one by one arrives at.
pub proof fn a_total_adds_up(prices: Seq<u128>)
    ensures
        total(prices) == prices.fold_left(0int, |sum: int, price: u128| sum + price),
    decreases prices.len(),
{
    if prices.len() > 0 {
        a_total_adds_up(prices.drop_last());
    }
}

/// A price is in the list of named prices as often as transactions name it.
pub proof fn the_named_prices_are_those_that_are_named(prices: Seq<Option<u128>>, price: u128)
    ensures
        named_prices(prices).to_multiset().count(price) == prices.to_multiset().count(Some(price)),
        price > 0 ==> positive_prices(prices).to_multiset().count(price)
            == prices.to_multiset().count(Some(price)),
        positive_prices(prices).to_multiset().count(0) == 0,
{
    lemma_named_count(prices, price);
    lemma_positive_count(prices, price);
    lemma_positive_count(prices, 0);
}

/// The place of a percentile is the last one of which a hundred times is not more than
/// `(count - 1) * percentile`.
pub proof fn a_percentile_index_rounds_down(count: int, percentile: int)
    ensures
        100 * percentile_index(count, percentile) <= (count - 1) * percentile,
        (count - 1) * percentile < 100 * (percentile_index(count, percentile) + 1),
{
}

/// Each transaction names its own price, and the prices are in the order of the transactions.
pub proof fn every_transaction_names_its_own_price(transactions: Seq<TxEnvelope>, i: int)
    requires
        0 <= i < transactions.len(),
    ensures
        envelope_gas_prices(transactions).len() == transactions.len(),
        envelope_gas_prices(transactions)[i] == envelope_gas_price(transactions[i]),
{
}

/// A price that fits in 64 bits is kept; of a larger one as many times 2^64 are taken away as it
/// holds.
pub proof fn a_price_that_fits_is_kept(price: u128)
    ensures
        price <= u64::MAX ==> low_64_bits(price) == price,
        low_64_bits(price) == price as int % 0x1_0000_0000_0000_0000,
{
}

/// While fewer than twenty blocks were sampled before this one, its price joins the list behind the
/// others, and its parent is next.
pub proof fn sampling_goes_on_with_the_parent(
    sampling: SamplingView,
    price: u128,
    parent_hash: FixedBytes<32>,
)
    requires
        sampling.prices.len() < 20,
    ensures
        after_price(sampling, price, parent_hash) matches GasPriceStepView::Pending(next) && {
            &&& next.prices == sampling.prices.push(price)
            &&& next.block_hash == parent_hash
        },
{
}

/// The price of the twenty-first block ends the sampling, with the eleventh of the prices in
/// ascending order. One that fits in 64 bits is handed on as it is.
pub proof fn sampling_ends_with_the_price_in_the_middle(
    sampling: SamplingView,
    price: u128,
    parent_hash: FixedBytes<32>,
    sorted: Seq<u128>,
)
    requires
        sampling.prices.len() == 20,
        sorted.to_multiset() == sampling.prices.push(price).to_multiset(),
        forall|i: int, j: int| 0 <= i <= j < sorted.len() ==> sorted[i] <= sorted[j],
    ensures
        after_price(sampling, price, parent_hash) matches GasPriceStepView::Done(Ok(found)) && {
            &&& sorted[10] <= u64::MAX ==> found == sorted[10]
            &&& found == sorted[10] as int % 0x1_0000_0000_0000_0000
        },
{
    a_percentile_has_its_place(sampling.prices.push(price), sorted, 50);
}

/// A block that was fetched counts with the median of its prices, and one that could not be fetched
/// ends the sampling.
pub proof fn a_block_counts_with_its_median(
    sampling: SamplingView,
    parent_hash: FixedBytes<32>,
    prices: Seq<Option<u128>>,
)
    ensures
        after_block(sampling, Some((parent_hash, prices))) == after_price(
            sampling,
            block_price(prices, 50),
            parent_hash,
        ),
        after_block(sampling, None) == GasPriceStepView::Done(
            Err(PipelineErrorKindView::Temporary(PipelineErrorView::MissingL1Data)),
        ),
{
}

/// The sampled price is the eleventh in ascending order of the medians of an L1 block and its twenty
/// closest ancestors, as a number, if that number fits in 64 bits. Here `hashes` are those blocks,
/// newest first, with the parent of the last; `named` are the prices that the transactions of each
/// name, `medians` the median of each, and `sorted` the medians in ascending order.
pub proof fn the_sampled_price_is_the_median_in_the_middle(
    fetch: spec_fn(FixedBytes<32>) -> Option<(FixedBytes<32>, Seq<Option<u128>>)>,
    hashes: Seq<FixedBytes<32>>,
    named: Seq<Seq<Option<u128>>>,
    medians: Seq<u128>,
    sorted: Seq<u128>,
)
    requires
        hashes.len() == 22,
        named.len() == 21,
        medians.len() == 21,
        forall|i: int|
            0 <= i < 21 ==> fetch(#[trigger] hashes[i]) == Some((hashes[i + 1], named[i])),
        forall|i: int| 0 <= i < 21 ==> #[trigger] medians[i] == block_price(named[i], 50),
        sorted.to_multiset() == medians.to_multiset(),
        forall|i: int, j: int| 0 <= i <= j < sorted.len() ==> sorted[i] <= sorted[j],
    ensures
        run_sampling(fetch, SamplingView { prices: Seq::empty(), block_hash: hashes[0] }, 21)
            == GasPriceStepView::Done(sampled_price(fetch, hashes[0])),
        sampled_price(fetch, hashes[0]) matches Ok(found) && {
            &&& sorted[10] <= u64::MAX ==> found == sorted[10]
            &&& found == sorted[10] as int % 0x1_0000_0000_0000_0000
        },
{
    sampling_finds_the_median_of_the_medians(fetch, hashes[0]);
    assert forall|i: int| 0 <= i <= 21 implies ancestor(fetch, hashes[0], i as nat) == Some(
        #[trigger] hashes[i],
    ) by {
        lemma_ancestors(fetch, hashes, named, i as nat);
    }
    assert(hashes[21] == hashes[21]);
    let prices = Seq::new(21, |i: int| ancestor_price(fetch, hashes[0], i as nat));
    assert forall|i: int| 0 <= i < 21 implies prices[i] == medians[i] by {
        assert(ancestor(fetch, hashes[0], i as nat) == Some(hashes[i]));
    }
    assert(prices =~= medians);
    a_percentile_has_its_place(medians, sorted, 50);
}

proof fn lemma_ancestors(
    fetch: spec_fn(FixedBytes<32>) -> Option<(FixedBytes<32>, Seq<Option<u128>>)>,
    hashes: Seq<FixedBytes<32>>,
    named: Seq<Seq<Option<u128>>>,
    generations: nat,
)
    requires
        generations < hashes.len(),
        forall|i: int|
            0 <= i < hashes.len() - 1 ==> fetch(#[trigger] hashes[i]) == Some(
                (hashes[i + 1], named[i]),
            ),
    ensures
        ancestor(fetch, hashes[0], generations) == Some(hashes[generations as int]),
    decreases generations,
{
    if generations > 0 {
        lemma_ancestors(fetch, hashes, named, (generations - 1) as nat);
        assert(fetch(hashes[generations - 1]) == Some(
            (hashes[generations - 1 + 1], named[generations - 1]),
        ));
    }
}

/// If one of the twenty-one blocks cannot be fetched, L1 data is missing. Here `hashes` are the
/// blocks up to that one, newest first.
pub proof fn a_block_that_is_missing_ends_the_sampling(
    fetch: spec_fn(FixedBytes<32>) -> Option<(FixedBytes<32>, Seq<Option<u128>>)>,
    hashes: Seq<FixedBytes<32>>,
    named: Seq<Seq<Option<u128>>>,
)
    requires
        0 < hashes.len() <= 21,
        forall|i: int|
            0 <= i < hashes.len() - 1 ==> fetch(#[trigger] hashes[i]) == Some(
                (hashes[i + 1], named[i]),
            ),
        fetch(hashes.last()) is None,
    ensures
        run_sampling(fetch, SamplingView { prices: Seq::empty(), block_hash: hashes[0] }, 21)
            == GasPriceStepView::Done(sampled_price(fetch, hashes[0])),
        sampled_price(fetch, hashes[0]) == Err::<u64, PipelineErrorKindView>(
            PipelineErrorKindView::Temporary(PipelineErrorView::MissingL1Data),
        ),
{
    sampling_finds_the_median_of_the_medians(fetch, hashes[0]);
    lemma_ancestors(fetch, hashes, named, (hashes.len() - 1) as nat);
    assert(ancestor(fetch, hashes[0], hashes.len()) is None);
    lemma_missing_ancestor(fetch, hashes[0], hashes.len(), 21);
}

/// A sampling shows its prices and its next block, and a step what it leads to.
pub proof fn a_sampling_shows_what_it_holds(sampling: GasPriceSampling, price: u64)
    ensures
        sampling@.prices == sampling.all_median_gas_price@,
        sampling@.block_hash == sampling.block_hash,
        GasPriceStep::Pending(sampling)@ == GasPriceStepView::Pending(sampling@),
        GasPriceStep::Done(Ok(price))@ == GasPriceStepView::Done(
            Ok::<u64, PipelineErrorKindView>(price),
        ),
        GasPriceStep::Done(
            Err(PipelineErrorKind::Temporary(PipelineError::MissingL1Data)),
        )@ == GasPriceStepView::Done(
            Err(PipelineErrorKindView::Temporary(PipelineErrorView::MissingL1Data)),
        ),
{
}

} // verus!
