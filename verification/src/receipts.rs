//! What the receipts of an L1 block log of the system config.
use alloy_consensus::{Eip658Value, Receipt};
use alloy_primitives::{Address, FixedBytes, Log, LogData};
use vstd::prelude::*;

use crate::outside::{log_data, log_data_bytes, log_topics};

verus! {

/// The first topic of the event by which the system config contract announces an update,
/// `ConfigUpdate(uint256,uint8,bytes)`.
pub const CONFIG_UPDATE_TOPIC: [u8; 32] = [
    0x1d, 0x2b, 0x0b, 0xda, 0x21, 0xd5, 0x6b, 0x8b,
    0xd1, 0x2d, 0x4f, 0x94, 0xeb, 0xac, 0xff, 0xdf,
    0xb3, 0x5f, 0x5e, 0x22, 0x6f, 0x84, 0xb4, 0x61,
    0x10, 0x3b, 0xb8, 0xbe, 0xab, 0x63, 0x53, 0xbe,
];

/// The update type of a new batcher address.
pub const BATCHER_UPDATE: u8 = 0;

/// The update type of a new overhead and a new scalar.
pub const GAS_CONFIG_UPDATE: u8 = 1;

/// The update type of a new gas limit.
pub const GAS_LIMIT_UPDATE: u8 = 2;

/// The update type of a new signer of unsafe blocks.
pub const UNSAFE_BLOCK_SIGNER_UPDATE: u8 = 3;

/// Whether no receipt holds a log that `contract` emitted.
pub open spec fn no_log_from(receipts: Seq<Receipt<Log<LogData>>>, contract: Address) -> bool {
    forall|i: int, j: int|
        0 <= i < receipts.len() && 0 <= j < receipts[i].logs@.len()
            ==> (#[trigger] receipts[i].logs@[j]).address != contract
}

/// Whether the bytes of `data` from `start` up to `end` are all zero.
pub open spec fn zero_bytes(data: Seq<u8>, start: int, end: int) -> bool {
    forall|i: int| start <= i < end ==> #[trigger] data[i] == 0
}

/// Whether the 32 bytes of `data` from `start` on are the big-endian number `value`.
pub open spec fn word_is(data: Seq<u8>, start: int, value: u8) -> bool {
    zero_bytes(data, start, start + 31) && data[start + 31] == value
}

/// Whether a log announces a config update in the name of `contract`.
pub open spec fn announces_update(log: Log<LogData>, contract: Address) -> bool {
    let topics = log_topics(log.data);
    &&& log.address == contract
    &&& topics.len() > 0
    &&& topics[0].0@ == CONFIG_UPDATE_TOPIC@
}

/// Whether the topics of a log name version zero of the event and the given update type. The type
/// is a number of 64 bits.
pub open spec fn names_type(topics: Seq<FixedBytes<32>>, update_type: u8) -> bool {
    &&& topics.len() >= 3
    &&& word_is(topics[1].0@, 0, 0)
    &&& zero_bytes(topics[2].0@, 24, 31)
    &&& topics[2].0@[31] == update_type
}

/// Whether data are the encoding of a byte string of `length` bytes, with nothing behind it.
pub open spec fn holds_bytes(data: Seq<u8>, length: u8) -> bool {
    &&& data.len() == 64 + length
    &&& word_is(data, 0, 32)
    &&& word_is(data, 32, length)
}

/// Whether a log announces a config update in the name of `contract` that cannot be read: its type
/// is unknown, or its data are not those of the type. A batcher address has twelve zero bytes in
/// front.
pub open spec fn is_malformed(log: Log<LogData>, contract: Address) -> bool {
    let topics = log_topics(log.data);
    let data = log_data(log.data);
    &&& announces_update(log, contract)
    &&& !(names_type(topics, BATCHER_UPDATE) && holds_bytes(data, 32) && zero_bytes(data, 64, 76))
    &&& !(names_type(topics, GAS_CONFIG_UPDATE) && holds_bytes(data, 64))
    &&& !(names_type(topics, GAS_LIMIT_UPDATE) && holds_bytes(data, 32))
    &&& !names_type(topics, UNSAFE_BLOCK_SIGNER_UPDATE)
}

/// Whether a log announces a new gas limit of more than 64 bits in the name of `contract`.
pub open spec fn sets_oversized_gas_limit(log: Log<LogData>, contract: Address) -> bool {
    let topics = log_topics(log.data);
    let data = log_data(log.data);
    &&& announces_update(log, contract)
    &&& names_type(topics, GAS_LIMIT_UPDATE)
    &&& holds_bytes(data, 32)
    &&& !zero_bytes(data, 64, 88)
}

/// Whether the receipt at `i` is that of a transaction that did not fail, and has a log at `j`.
pub open spec fn has_log(receipts: Seq<Receipt<Log<LogData>>>, i: int, j: int) -> bool {
    &&& 0 <= i < receipts.len()
    &&& receipts[i].status != Eip658Value::Eip658(false)
    &&& 0 <= j < receipts[i].logs@.len()
}

/// Whether the log at `j` of the receipt at `i` comes before the one at `l` of the receipt at `k`.
pub open spec fn precedes(i: int, j: int, k: int, l: int) -> bool {
    i < k || i == k && j < l
}

/// Whether every config update that is announced in the name of `contract` can be read.
pub open spec fn updates_well_formed(
    receipts: Seq<Receipt<Log<LogData>>>,
    contract: Address,
) -> bool {
    forall|i: int, j: int| #[trigger]
        has_log(receipts, i, j) ==> !is_malformed(receipts[i].logs@[j], contract)
}

/// Whether every gas limit that is announced in the name of `contract` before the first malformed
/// update fits in 64 bits.
pub open spec fn gas_limits_fit(receipts: Seq<Receipt<Log<LogData>>>, contract: Address) -> bool {
    forall|k: int, l: int| #[trigger]
        has_log(receipts, k, l) && sets_oversized_gas_limit(receipts[k].logs@[l], contract)
            ==> exists|i: int, j: int| #[trigger]
            has_log(receipts, i, j) && precedes(i, j, k, l) && is_malformed(
                receipts[i].logs@[j],
                contract,
            )
}

/// Whether two byte strings of fixed length are the same.
pub fn same_bytes<const N: usize>(left: &FixedBytes<N>, right: &FixedBytes<N>) -> (same: bool)
    ensures
        same == (*left == *right),
{
    let mut i: usize = 0;
    while i < N
        invariant
            i <= N,
            forall|j: int| 0 <= j < i ==> left.0@[j] == right.0@[j],
        decreases N - i,
    {
        if left.0[i] != right.0[i] {
            return false;
        }
        i += 1;
    }
    proof {
        assert(left.0@ =~= right.0@);
        assert(left.0 =~= right.0);
    }
    true
}

/// Whether the bytes from `start` up to `end` are all zero.
fn all_zero(data: &[u8], start: usize, end: usize) -> (zero: bool)
    requires
        start <= end <= data@.len(),
    ensures
        zero == zero_bytes(data@, start as int, end as int),
{
    let mut i: usize = start;
    while i < end
        invariant
            start <= i <= end <= data@.len(),
            forall|j: int| start <= j < i ==> #[trigger] data@[j] == 0,
        decreases end - i,
    {
        if data[i] != 0 {
            return false;
        }
        i += 1;
    }
    true
}

/// Whether the 32 bytes from `start` on are the big-endian number `value`.
fn word_equals(data: &[u8], start: usize, value: u8) -> (equal: bool)
    requires
        start + 32 <= data@.len(),
    ensures
        equal == word_is(data@, start as int, value),
{
    let length: usize = data.len();
    assert(start + 31 < length);
    all_zero(data, start, start + 31) && data[start + 31] == value
}

/// The update type that the topics of a log name, if they name one of those known, under version
/// zero of the event.
fn update_type(topics: &[FixedBytes<32>]) -> (update_type: Option<u8>)
    ensures
        match update_type {
            Some(value) => value <= UNSAFE_BLOCK_SIGNER_UPDATE && names_type(topics@, value),
            None => forall|value: u8|
                value <= UNSAFE_BLOCK_SIGNER_UPDATE ==> !#[trigger] names_type(topics@, value),
        },
{
    if topics.len() < 3 || !word_equals(topics[1].0.as_slice(), 0, 0) || !all_zero(
        topics[2].0.as_slice(),
        24,
        31,
    ) {
        return None;
    }
    let value: u8 = topics[2].0[31];
    if value <= UNSAFE_BLOCK_SIGNER_UPDATE {
        Some(value)
    } else {
        None
    }
}

/// Whether data are the encoding of a byte string of `length` bytes, with nothing behind it.
fn encodes_bytes(data: &[u8], length: u8) -> (encodes: bool)
    ensures
        encodes == holds_bytes(data@, length),
{
    data.len() == 64 + length as usize && word_equals(data, 0, 32) && word_equals(data, 32, length)
}

/// What a log does to the gas limit.
enum Effect {
    /// It is a malformed config update.
    Malformed,
    /// It sets a gas limit of more than 64 bits.
    Oversized,
    /// Neither.
    Harmless,
}

/// What a log does to the gas limit in the name of `contract`.
fn effect(log: &Log<LogData>, contract: &Address) -> (effect: Effect)
    ensures
        effect is Malformed <==> is_malformed(*log, *contract),
        effect is Oversized <==> sets_oversized_gas_limit(*log, *contract),
{
    let topics = log.data.topics();
    let data = log_data_bytes(&log.data);
    if !same_bytes(&log.address.0, &contract.0) || topics.len() == 0 || !same_bytes(
        &topics[0],
        &FixedBytes(CONFIG_UPDATE_TOPIC),
    ) {
        proof {
            if topics@.len() > 0 && topics@[0].0@ == CONFIG_UPDATE_TOPIC@ {
                assert(topics@[0].0 =~= CONFIG_UPDATE_TOPIC);
            }
        }
        return Effect::Harmless;
    }
    match update_type(topics) {
        Some(update_type) => {
            if update_type == BATCHER_UPDATE {
                if encodes_bytes(data, 32) && all_zero(data, 64, 76) {
                    Effect::Harmless
                } else {
                    Effect::Malformed
                }
            } else if update_type == GAS_CONFIG_UPDATE {
                if encodes_bytes(data, 64) {
                    Effect::Harmless
                } else {
                    Effect::Malformed
                }
            } else if update_type == GAS_LIMIT_UPDATE {
                if !encodes_bytes(data, 32) {
                    Effect::Malformed
                } else if all_zero(data, 64, 88) {
                    Effect::Harmless
                } else {
                    Effect::Oversized
                }
            } else {
                Effect::Harmless
            }
        },
        None => Effect::Malformed,
    }
}

/// Whether every gas limit that is announced in the name of `contract` before the first malformed
/// update fits in 64 bits.
pub fn check_gas_limits(receipts: &Vec<Receipt<Log<LogData>>>, contract: &Address) -> (fit: bool)
    ensures
        fit == gas_limits_fit(receipts@, *contract),
{
    let mut i: usize = 0;
    while i < receipts.len()
        invariant
            i <= receipts.len(),
            forall|k: int, l: int| #[trigger]
                has_log(receipts@, k, l) && k < i ==> !is_malformed(
                    receipts@[k].logs@[l],
                    *contract,
                ) && !sets_oversized_gas_limit(receipts@[k].logs@[l], *contract),
        decreases receipts.len() - i,
    {
        let receipt = &receipts[i];
        let failed = match receipt.status {
            Eip658Value::Eip658(success) => !success,
            Eip658Value::PostState(_) => false,
        };
        if !failed {
            let mut j: usize = 0;
            while j < receipt.logs.len()
                invariant
                    j <= receipt.logs.len(),
                    i < receipts.len(),
                    *receipt == receipts@[i as int],
                    receipt.status != Eip658Value::Eip658(false),
                    forall|k: int, l: int| #[trigger]
                        has_log(receipts@, k, l) && precedes(k, l, i as int, j as int)
                            ==> !is_malformed(receipts@[k].logs@[l], *contract)
                            && !sets_oversized_gas_limit(receipts@[k].logs@[l], *contract),
                decreases receipt.logs.len() - j,
            {
                assert(has_log(receipts@, i as int, j as int));
                match effect(&receipt.logs[j], contract) {
                    Effect::Malformed => return true,
                    Effect::Oversized => return false,
                    Effect::Harmless => {},
                }
                j += 1;
            }
        }
        i += 1;
    }
    true
}

} // verus!
