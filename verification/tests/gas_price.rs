use alloy_consensus::{SignableTransaction, TxEip1559, TxEip2930, TxEnvelope, TxLegacy};
use alloy_primitives::{Signature, B256};
use attributes_builder::builder::StatefulAttributesBuilder;
use attributes_builder::errors::{PipelineError, PipelineErrorKind};
use attributes_builder::gas_price::{
    block_gas_price, gas_prices, mean_gas_price, total_gas_price, GasPriceSampling, GasPriceStep,
    DEFAULT_BASE_FEE, MEDIAN, SAMPLED_BLOCKS,
};
use op_alloy_genesis::RollupConfig;
use op_alloy_protocol::BlockInfo;
use std::sync::Arc;

fn builder() -> StatefulAttributesBuilder {
    StatefulAttributesBuilder::new(Arc::new(RollupConfig::default()))
}

fn legacy(gas_price: u128) -> TxEnvelope {
    let tx = TxLegacy { gas_price, ..Default::default() };
    TxEnvelope::Legacy(tx.into_signed(Signature::test_signature()))
}

fn with_access_list(gas_price: u128) -> TxEnvelope {
    let tx = TxEip2930 { gas_price, ..Default::default() };
    TxEnvelope::Eip2930(tx.into_signed(Signature::test_signature()))
}

fn with_fee_cap(max_fee_per_gas: u128) -> TxEnvelope {
    let tx = TxEip1559 { max_fee_per_gas, ..Default::default() };
    TxEnvelope::Eip1559(tx.into_signed(Signature::test_signature()))
}

fn block(parent: u8) -> BlockInfo {
    BlockInfo { parent_hash: B256::left_padding_from(&[parent]), ..Default::default() }
}

#[test]
fn the_price_of_a_transaction_depends_on_its_type() {
    let txs = vec![legacy(7), with_access_list(8), with_fee_cap(9)];
    assert_eq!(gas_prices(&txs), vec![Some(7), Some(8), None]);
}

#[test]
fn the_mean_counts_named_prices_and_rounds_down() {
    let builder = builder();
    assert_eq!(
        builder.base_fee_by_transactions(&vec![legacy(3), with_fee_cap(100), legacy(0), legacy(8)]),
        3
    );
    assert_eq!(builder.base_fee_by_transactions(&vec![]), 3_000_000_000);
    assert_eq!(builder.base_fee_by_transactions(&vec![with_fee_cap(1)]), DEFAULT_BASE_FEE);
    assert_eq!(mean_gas_price(&vec![Some(10), None, Some(21)]), 15);
}

#[test]
fn a_sum_that_does_not_fit_is_found() {
    let builder = builder();
    let txs = vec![legacy(u128::MAX), legacy(1)];
    assert_eq!(builder.checked_base_fee_by_transactions(&txs), None);
    let txs = vec![legacy(u128::MAX - 1), legacy(1)];
    assert_eq!(builder.checked_base_fee_by_transactions(&txs), Some(u128::MAX / 2));
    assert_eq!(total_gas_price(&vec![Some(u128::MAX), None, Some(0)]), Some(u128::MAX));
    assert_eq!(total_gas_price(&vec![Some(u128::MAX), None, Some(1)]), None);
}

#[test]
fn the_final_price_sorts_in_place() {
    let builder = builder();
    let mut prices = vec![50, 10, 40, 20, 30];
    assert_eq!(builder.final_gas_price(&mut prices, 50), 30);
    assert_eq!(prices, vec![10, 20, 30, 40, 50]);
    assert_eq!(builder.final_gas_price(&mut prices, 0), 10);
    assert_eq!(builder.final_gas_price(&mut prices, 100), 50);
    assert_eq!(builder.final_gas_price(&mut prices, 49), 20);
    assert_eq!(builder.final_gas_price(&mut prices, 75), 40);
    assert_eq!(builder.final_gas_price(&mut vec![6], usize::MAX), 6);
    assert_eq!(builder.final_gas_price(&mut vec![2, 1], 199), 2);
}

#[test]
fn the_median_leaves_out_zero_and_unnamed_prices() {
    let builder = builder();
    let txs = vec![legacy(30), legacy(0), with_fee_cap(99), legacy(10), with_access_list(20)];
    assert_eq!(builder.median_gas_price(txs, 50), 20);
    assert_eq!(builder.median_gas_price(vec![legacy(4), legacy(3)], 50), 3);
    assert_eq!(block_gas_price(&vec![Some(4), Some(3), Some(9), Some(8)], 50), 4);
}

#[test]
fn the_median_of_a_block_without_prices_is_the_default() {
    let builder = builder();
    assert_eq!(builder.median_gas_price(vec![], 50), 3_000_000_000);
    assert_eq!(builder.median_gas_price(vec![legacy(0), with_fee_cap(5)], 1000), DEFAULT_BASE_FEE);
}

#[test]
fn the_order_of_the_transactions_has_no_effect() {
    let builder = builder();
    let (one, two) = (vec![legacy(1), legacy(2), legacy(9)], vec![legacy(9), legacy(1), legacy(2)]);
    assert_eq!(builder.base_fee_by_transactions(&one), builder.base_fee_by_transactions(&two));
    assert_eq!(builder.median_gas_price(one, 50), builder.median_gas_price(two, 50));
}

#[test]
fn the_sampling_goes_back_over_the_parents() {
    let builder = builder();
    let mut sampling = builder.snow_l1_gas_price(B256::left_padding_from(&[100]));
    assert_eq!(sampling.block_hash, B256::left_padding_from(&[100]));
    assert!(sampling.all_median_gas_price.is_empty());
    // The medians 21, 20, .., 1.
    for i in 0..20u8 {
        let txs = vec![legacy(21 - i as u128), with_fee_cap(1000)];
        match builder.sample_block(sampling, Ok((block(99 - i), txs))) {
            GasPriceStep::Pending(next) => sampling = next,
            GasPriceStep::Done(_) => panic!("over too early"),
        }
        assert_eq!(sampling.block_hash, B256::left_padding_from(&[99 - i]));
        assert_eq!(sampling.all_median_gas_price.len(), i as usize + 1);
    }
    match builder.sample_block(sampling, Ok((block(79), vec![legacy(1)]))) {
        GasPriceStep::Done(result) => assert_eq!(result, Ok(11)),
        GasPriceStep::Pending(_) => panic!("not over"),
    }
}

#[test]
fn a_missing_block_ends_the_sampling() {
    let builder = builder();
    let sampling = builder.snow_l1_gas_price(B256::ZERO);
    match builder.sample_block(sampling, Err("gone".to_string())) {
        GasPriceStep::Done(result) => assert_eq!(
            result,
            Err(PipelineErrorKind::Temporary(PipelineError::MissingL1Data))
        ),
        GasPriceStep::Pending(_) => panic!("not over"),
    }
}

#[test]
fn the_sampled_price_is_cut_to_64_bits() {
    let builder = builder();
    let sampling = GasPriceSampling {
        all_median_gas_price: vec![(1u128 << 64) + 5; SAMPLED_BLOCKS - 1],
        block_hash: B256::ZERO,
    };
    match builder.sample_price(sampling, 0, B256::ZERO) {
        GasPriceStep::Done(result) => assert_eq!(result, Ok(5)),
        GasPriceStep::Pending(_) => panic!("not over"),
    }
    assert_eq!((SAMPLED_BLOCKS, MEDIAN), (21, 50));
}
