//! Laws of the gas price and of the upgrades.
use alloy_consensus::Header;
use op_alloy_consensus::OpTxEnvelope;
use op_alloy_genesis::{RollupConfig, SystemConfig};
use op_alloy_protocol::{L1BlockInfoTx, L2BlockInfo};
use vstd::prelude::*;

use crate::forks::activates;
use crate::gas_price::{
    ascending, ascending_arranges, ascending_is_the_sorted_arrangement, block_price, mean_price,
    named_prices, percentile_index, percentile_price, positive_prices, total,
};
use crate::payload::{payload, upgrades, PayloadView};

verus! {

/// Every percentile up to the hundredth has a place among any numbers.
pub proof fn a_percentile_is_in_range(count: int, percentile: int)
    requires
        count > 0,
        0 <= percentile <= 100,
    ensures
        0 <= percentile_index(count, percentile) < count,
{
    assert(0 <= (count - 1) * percentile <= (count - 1) * 100) by (nonlinear_arith)
        requires
            count > 0,
            0 <= percentile <= 100,
    ;
}

/// A percentile of prices is one of the prices.
pub proof fn a_percentile_is_a_price(prices: Seq<u128>, percentile: int)
    requires
        prices.len() > 0,
        0 <= percentile <= 100,
    ensures
        prices.contains(percentile_price(prices, percentile)),
{
    a_percentile_is_in_range(prices.len() as int, percentile);
    ascending_arranges(prices);
    prices.to_multiset_ensures();
    ascending(prices).to_multiset_ensures();
    let price = percentile_price(prices, percentile);
    assert(ascending(prices).contains(price));
    assert(ascending(prices).to_multiset().count(price) > 0);
    assert(prices.to_multiset().count(price) > 0);
}

/// A higher percentile is not a lower price.
pub proof fn percentiles_ascend(prices: Seq<u128>, low: int, high: int)
    requires
        prices.len() > 0,
        0 <= low <= high <= 100,
    ensures
        percentile_price(prices, low) <= percentile_price(prices, high),
{
    let count = prices.len() as int;
    a_percentile_is_in_range(count, low);
    a_percentile_is_in_range(count, high);
    ascending_arranges(prices);
    assert((count - 1) * low <= (count - 1) * high) by (nonlinear_arith)
        requires
            count > 0,
            low <= high,
    ;
}

/// All prices lie between the percentiles zero and one hundred.
pub proof fn the_extreme_percentiles_bound_the_prices(prices: Seq<u128>, i: int)
    requires
        0 <= i < prices.len(),
    ensures
        percentile_price(prices, 0) <= prices[i] <= percentile_price(prices, 100),
{
    ascending_arranges(prices);
    prices.to_multiset_ensures();
    ascending(prices).to_multiset_ensures();
    assert(prices.contains(prices[i]));
    assert(prices.to_multiset().count(prices[i]) > 0);
    assert(ascending(prices).to_multiset().count(prices[i]) > 0);
    assert(ascending(prices).contains(prices[i]));
    let place = choose|place: int|
        0 <= place < ascending(prices).len() && ascending(prices)[place] == prices[i];
    assert(percentile_index(prices.len() as int, 0) == 0);
    assert(percentile_index(prices.len() as int, 100) == prices.len() - 1);
    assert(ascending(prices)[0] <= ascending(prices)[place]);
}

/// The gas price of a block is never zero.
pub proof fn a_block_price_is_positive(prices: Seq<Option<u128>>, percentile: int)
    requires
        0 <= percentile <= 100,
    ensures
        block_price(prices, percentile) > 0,
{
    let positive = positive_prices(prices);
    lemma_positive(prices);
    if positive.len() > 0 {
        a_percentile_is_a_price(positive, percentile);
        let i = choose|i: int|
            0 <= i < positive.len() && positive[i] == percentile_price(positive, percentile);
        assert(positive[i] > 0);
    }
}

proof fn lemma_positive(prices: Seq<Option<u128>>)
    ensures
        forall|i: int| 0 <= i < positive_prices(prices).len() ==> positive_prices(prices)[i] > 0,
    decreases prices.len(),
{
    if prices.len() > 0 {
        let rest = positive_prices(prices.drop_last());
        lemma_positive(prices.drop_last());
        assert forall|i: int| 0 <= i < positive_prices(prices).len() implies positive_prices(
            prices,
        )[i] > 0 by {
            if i < rest.len() {
                assert(rest[i] > 0);
            }
        }
    }
}

/// A transaction that names no gas price, or zero, has no part in the gas price of its block.
pub proof fn an_unnamed_or_zero_price_does_not_count(
    before: Seq<Option<u128>>,
    price: Option<u128>,
    after: Seq<Option<u128>>,
    percentile: int,
)
    requires
        price is None || price == Some(0u128),
    ensures
        block_price(before.push(price) + after, percentile) == block_price(
            before + after,
            percentile,
        ),
{
    lemma_positive_concat(before.push(price), after);
    lemma_positive_concat(before, after);
    assert(before.push(price).drop_last() =~= before);
}

proof fn lemma_positive_concat(left: Seq<Option<u128>>, right: Seq<Option<u128>>)
    ensures
        positive_prices(left + right) == positive_prices(left) + positive_prices(right),
    decreases right.len(),
{
    if right.len() == 0 {
        assert(left + right =~= left);
        assert(positive_prices(left) + Seq::<u128>::empty() =~= positive_prices(left));
    } else {
        assert((left + right).drop_last() =~= left + right.drop_last());
        lemma_positive_concat(left, right.drop_last());
        assert(positive_prices(left + right) =~= positive_prices(left) + positive_prices(right));
    }
}

/// The order of the transactions does not matter, neither for the percentile nor for the mean.
pub proof fn the_order_of_transactions_does_not_matter(
    prices: Seq<Option<u128>>,
    reordered: Seq<Option<u128>>,
    percentile: int,
)
    requires
        prices.to_multiset() == reordered.to_multiset(),
    ensures
        block_price(prices, percentile) == block_price(reordered, percentile),
        mean_price(prices) == mean_price(reordered),
{
    let left = positive_prices(prices);
    let right = positive_prices(reordered);
    assert forall|price: u128| left.to_multiset().count(price) == right.to_multiset().count(price) by {
        lemma_positive_count(prices, price);
        lemma_positive_count(reordered, price);
    }
    assert(left.to_multiset() =~= right.to_multiset());
    ascending_arranges(right);
    ascending_is_the_sorted_arrangement(left, ascending(right));
    left.to_multiset_ensures();
    right.to_multiset_ensures();

    let left = named_prices(prices);
    let right = named_prices(reordered);
    assert forall|price: u128| left.to_multiset().count(price) == right.to_multiset().count(price) by {
        lemma_named_count(prices, price);
        lemma_named_count(reordered, price);
    }
    assert(left.to_multiset() =~= right.to_multiset());
    left.to_multiset_ensures();
    right.to_multiset_ensures();
    lemma_total_reordered(left, right);
}

pub(crate) proof fn lemma_positive_count(prices: Seq<Option<u128>>, price: u128)
    ensures
        positive_prices(prices).to_multiset().count(price) == if price > 0 {
            prices.to_multiset().count(Some(price))
        } else {
            0
        },
    decreases prices.len(),
{
    broadcast use vstd::seq_lib::group_to_multiset_ensures;

    if prices.len() > 0 {
        lemma_positive_count(prices.drop_last(), price);
        assert(prices =~= prices.drop_last().push(prices.last()));
    }
}

pub(crate) proof fn lemma_named_count(prices: Seq<Option<u128>>, price: u128)
    ensures
        named_prices(prices).to_multiset().count(price) == prices.to_multiset().count(Some(price)),
    decreases prices.len(),
{
    broadcast use vstd::seq_lib::group_to_multiset_ensures;

    if prices.len() > 0 {
        lemma_named_count(prices.drop_last(), price);
        assert(prices =~= prices.drop_last().push(prices.last()));
    }
}

pub(crate) proof fn lemma_total_reordered(left: Seq<u128>, right: Seq<u128>)
    requires
        left.to_multiset() == right.to_multiset(),
    ensures
        total(left) == total(right),
    decreases left.len(),
{
    broadcast use vstd::seq_lib::group_to_multiset_ensures;

    left.to_multiset_ensures();
    right.to_multiset_ensures();
    if left.len() > 0 {
        let price = left.last();
        assert(left.contains(price));
        assert(right.to_multiset().count(price) > 0);
        assert(right.contains(price));
        let i = choose|i: int| 0 <= i < right.len() && right[i] == price;
        lemma_total_remove(right, i);
        assert(left.drop_last() =~= left.remove(left.len() - 1));
        assert(left.drop_last().to_multiset() =~= left.to_multiset().remove(price));
        assert(right.remove(i).to_multiset() =~= right.to_multiset().remove(price));
        lemma_total_reordered(left.drop_last(), right.remove(i));
    }
}

proof fn lemma_total_remove(prices: Seq<u128>, i: int)
    requires
        0 <= i < prices.len(),
    ensures
        total(prices) == total(prices.remove(i)) + prices[i],
    decreases prices.len(),
{
    if i == prices.len() - 1 {
        assert(prices.remove(i) =~= prices.drop_last());
    } else {
        lemma_total_remove(prices.drop_last(), i);
        assert(prices.remove(i).drop_last() =~= prices.drop_last().remove(i));
    }
}

/// An upgrade becomes active in the one block whose time is the first not before its activation
/// time. No later block carries its transactions again.
pub proof fn an_upgrade_happens_once(
    activation: Option<u64>,
    parent_timestamp: int,
    timestamp: int,
    later_parent_timestamp: int,
    later_timestamp: int,
)
    requires
        timestamp <= later_parent_timestamp,
    ensures
        activates(activation, parent_timestamp, timestamp) <==> (activation matches Some(time)
            && parent_timestamp < time <= timestamp),
        activates(activation, parent_timestamp, timestamp) ==> !activates(
            activation,
            later_parent_timestamp,
            later_timestamp,
        ),
{
}

/// A block carries six transactions if Ecotone becomes active in it, and three more if Fjord does.
pub proof fn an_upgrade_has_its_transactions(
    config: RollupConfig,
    parent_timestamp: int,
    timestamp: int,
)
    ensures
        upgrades(config, parent_timestamp, timestamp).len() == (if activates(
            config.ecotone_time,
            parent_timestamp,
            timestamp,
        ) {
            6int
        } else {
            0
        }) + (if activates(config.fjord_time, parent_timestamp, timestamp) {
            3int
        } else {
            0
        }),
{
}

/// What the L1 info says, the gas price in it among that, shows in no part of a payload but its
/// first transaction.
pub proof fn the_l1_info_shows_in_the_first_transaction_only(
    config: RollupConfig,
    l2_parent: L2BlockInfo,
    sys_config: SystemConfig,
    l1_header: Header,
    deposits: Option<Seq<Seq<u8>>>,
    l1_info: L1BlockInfoTx,
    other_info: L1BlockInfoTx,
    envelope: OpTxEnvelope,
)
    ensures
        ({
            let made = payload(
                config,
                l2_parent,
                sys_config,
                l1_header,
                deposits,
                l1_info,
                envelope,
            );
            let other = payload(
                config,
                l2_parent,
                sys_config,
                l1_header,
                deposits,
                other_info,
                envelope,
            );
            &&& made.transactions->0.skip(1) == other.transactions->0.skip(1)
            &&& made == (PayloadView { transactions: made.transactions, ..other })
        }),
{
}

} // verus!
