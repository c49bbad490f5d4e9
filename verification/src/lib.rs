//! The payload attributes of OP Stack blocks.
//!
//! An L2 block is built from payload attributes that are derived from L1: the time of the block, the
//! fee recipient, the transaction that carries the L1 info, the deposits of the epoch and the
//! transactions of an upgrade. This library derives them. It performs no I/O: a
//! [`PayloadJob`](job::PayloadJob) says what it needs to know next, and goes on with the reply, until
//! the attributes are ready or cannot be built. The L1 gas price that the L1 info reports is found
//! in the same way, by a [`GasPriceSampling`](gas_price::GasPriceSampling) over recent L1 blocks.
//!
//! - [`builder`]: the builder, which leads a job from one reply to the next;
//! - [`gas_price`]: the gas price of an L1 block, and the sampling;
//! - [`job`], [`steps`], [`payload`], [`forks`]: the states of a job, what each reply leads to, and
//!   what a payload is made of;
//! - [`receipts`]: what receipts log of the system config;
//! - [`errors`]: the errors;
//! - [`run`], [`laws`], [`payload_laws`], [`price_laws`], [`receipt_laws`]: what whole runs arrive
//!   at, and what holds of payloads, replies, prices, upgrades and receipts;
//! - [`outside`]: what is relied on of other crates.
pub mod builder;
pub mod errors;
pub mod forks;
pub mod gas_price;
pub mod job;
pub mod laws;
pub mod outside;
pub mod payload;
pub mod payload_laws;
pub mod price_laws;
pub mod receipt_laws;
pub mod receipts;
pub mod run;
pub mod steps;
