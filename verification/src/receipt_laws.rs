//! Which config updates can be read and which gas limits fit, said of the bytes of a log and of how
//! receipts follow each other.
use alloy_consensus::{Eip658Value, Receipt};
use alloy_primitives::{Address, Log, LogData};
use vstd::prelude::*;

use crate::outside::{log_data, log_topics};
use crate::receipts::{
    gas_limits_fit, has_log, is_malformed, no_log_from, precedes, sets_oversized_gas_limit,
    updates_well_formed, CONFIG_UPDATE_TOPIC,
};

verus! {

/// A log of another account, or without the topic of a config update, announces no update: it is
/// neither malformed nor does it set a gas limit.
pub proof fn only_the_contract_announces_updates(log: Log<LogData>, contract: Address)
    requires
        log.address != contract || log_topics(log.data).len() == 0 || log_topics(log.data)[0].0@
            != CONFIG_UPDATE_TOPIC@,
    ensures
        !is_malformed(log, contract),
        !sets_oversized_gas_limit(log, contract),
{
}

/// A log that sets a gas limit of more than 64 bits is not malformed, comes from the contract, and
/// has a byte other than zero in front of the last eight of its 96.
pub proof fn an_oversized_gas_limit_has_a_high_byte(log: Log<LogData>, contract: Address)
    requires
        sets_oversized_gas_limit(log, contract),
    ensures
        !is_malformed(log, contract),
        log.address == contract,
        log_topics(log.data).len() >= 3,
        log_topics(log.data)[2].0@[31] == 2,
        log_data(log.data).len() == 96,
        exists|i: int| 64 <= i < 88 && #[trigger] log_data(log.data)[i] != 0,
{
}

/// An update of the gas limit whose data encode 32 bytes can be read. It is oversized if and only if
/// one of the first 24 of those bytes is not zero.
pub proof fn a_gas_limit_is_read_from_its_last_eight_bytes(log: Log<LogData>, contract: Address)
    requires
        log.address == contract,
        log_topics(log.data).len() >= 3,
        log_topics(log.data)[0].0@ == CONFIG_UPDATE_TOPIC@,
        forall|i: int| 0 <= i < 32 ==> #[trigger] log_topics(log.data)[1].0@[i] == 0,
        forall|i: int| 24 <= i < 31 ==> #[trigger] log_topics(log.data)[2].0@[i] == 0,
        log_topics(log.data)[2].0@[31] == 2,
        log_data(log.data).len() == 96,
        forall|i: int|
            0 <= i < 64 && i != 31 && i != 63 ==> #[trigger] log_data(log.data)[i] == 0,
        log_data(log.data)[31] == 32,
        log_data(log.data)[63] == 32,
    ensures
        !is_malformed(log, contract),
        sets_oversized_gas_limit(log, contract) <==> exists|i: int|
            64 <= i < 88 && #[trigger] log_data(log.data)[i] != 0,
{
}

/// An update that names fewer than three topics, a version other than zero or an unknown type is
/// malformed, whatever its data.
pub proof fn an_unknown_update_is_malformed(log: Log<LogData>, contract: Address)
    requires
        log.address == contract,
        log_topics(log.data).len() > 0,
        log_topics(log.data)[0].0@ == CONFIG_UPDATE_TOPIC@,
        ({
            let topics = log_topics(log.data);
            ||| topics.len() < 3
            ||| exists|i: int| 0 <= i < 32 && #[trigger] topics[1].0@[i] != 0
            ||| exists|i: int| 24 <= i < 31 && #[trigger] topics[2].0@[i] != 0
            ||| topics[2].0@[31] > 3
        }),
    ensures
        is_malformed(log, contract),
        !sets_oversized_gas_limit(log, contract),
{
}

/// An update of version zero and a known type is malformed by its data alone. Those of a batcher
/// address and of a gas limit encode 32 bytes, and the first twelve of an address are zero. Those of
/// a gas config encode 64 bytes. Those of a signer are not read.
pub proof fn a_known_update_is_malformed_by_its_data(log: Log<LogData>, contract: Address)
    requires
        log.address == contract,
        log_topics(log.data).len() >= 3,
        log_topics(log.data)[0].0@ == CONFIG_UPDATE_TOPIC@,
        forall|i: int| 0 <= i < 32 ==> #[trigger] log_topics(log.data)[1].0@[i] == 0,
        forall|i: int| 24 <= i < 31 ==> #[trigger] log_topics(log.data)[2].0@[i] == 0,
    ensures
        ({
            let update_type = log_topics(log.data)[2].0@[31];
            let data = log_data(log.data);
            let prefix = data.len() >= 64 && data[31] == 32 && forall|i: int|
                0 <= i < 63 && i != 31 ==> #[trigger] data[i] == 0;
            &&& update_type == 0 ==> (is_malformed(log, contract) <==> !(prefix && data.len() == 96
                && data[63] == 32 && forall|i: int| 64 <= i < 76 ==> #[trigger] data[i] == 0))
            &&& update_type == 1 ==> (is_malformed(log, contract) <==> !(prefix && data.len() == 128
                && data[63] == 64))
            &&& update_type == 2 ==> (is_malformed(log, contract) <==> !(prefix && data.len() == 96
                && data[63] == 32))
            &&& update_type == 3 ==> !is_malformed(log, contract)
            &&& update_type > 3 ==> is_malformed(log, contract)
            &&& update_type != 2 ==> !sets_oversized_gas_limit(log, contract)
        }),
{
}

/// The first log of a transaction that did not fail and that is either malformed or sets an oversized
/// gas limit decides: the gas limits fit if it is malformed, and do not if it sets one. They fit if
/// there is no such log.
pub proof fn the_first_bad_log_decides(
    receipts: Seq<Receipt<Log<LogData>>>,
    contract: Address,
    k: int,
    l: int,
)
    requires
        0 <= k <= receipts.len(),
        k < receipts.len() ==> {
            &&& receipts[k].status != Eip658Value::Eip658(false)
            &&& 0 <= l < receipts[k].logs@.len()
            &&& is_malformed(receipts[k].logs@[l], contract) || sets_oversized_gas_limit(
                receipts[k].logs@[l],
                contract,
            )
        },
        forall|i: int, j: int|
            0 <= i < receipts.len() && receipts[i].status != Eip658Value::Eip658(false) && 0 <= j
                < receipts[i].logs@.len() && (i < k || i == k && j < l) ==> !is_malformed(
                #[trigger] receipts[i].logs@[j],
                contract,
            ) && !sets_oversized_gas_limit(receipts[i].logs@[j], contract),
    ensures
        gas_limits_fit(receipts, contract) <==> (k < receipts.len() ==> is_malformed(
            receipts[k].logs@[l],
            contract,
        )),
        k == receipts.len() ==> updates_well_formed(receipts, contract),
        k < receipts.len() && is_malformed(receipts[k].logs@[l], contract) ==> !updates_well_formed(
            receipts,
            contract,
        ),
{
    if k < receipts.len() {
        assert(has_log(receipts, k, l));
        if is_malformed(receipts[k].logs@[l], contract) {
            assert forall|m: int, n: int| #[trigger]
                has_log(receipts, m, n) && sets_oversized_gas_limit(
                    receipts[m].logs@[n],
                    contract,
                ) implies exists|i: int, j: int| #[trigger]
                has_log(receipts, i, j) && precedes(i, j, m, n) && is_malformed(
                    receipts[i].logs@[j],
                    contract,
                ) by {
                assert(precedes(k, l, m, n));
            }
        }
    }
}

/// Receipts are read in order, up to the first malformed update: the gas limits of a list fit if
/// those of its front do, and, unless an update in front is malformed, those of its back. Updates are
/// well-formed if they are in both parts.
pub proof fn receipts_are_read_in_order(
    front: Seq<Receipt<Log<LogData>>>,
    back: Seq<Receipt<Log<LogData>>>,
    contract: Address,
)
    ensures
        updates_well_formed(front + back, contract) <==> updates_well_formed(front, contract)
            && updates_well_formed(back, contract),
        gas_limits_fit(front + back, contract) <==> gas_limits_fit(front, contract) && (
        updates_well_formed(front, contract) ==> gas_limits_fit(back, contract)),
{
    let all = front + back;
    let n = front.len() as int;
    assert forall|i: int, j: int| i < n implies has_log(front, i, j) == #[trigger] has_log(
        all,
        i,
        j,
    ) by {
        if 0 <= i < n {
            assert(all[i] == front[i]);
        }
    }
    assert forall|i: int, j: int| i >= 0 implies #[trigger] has_log(back, i, j) == has_log(
        all,
        i + n,
        j,
    ) by {
        if 0 <= i < back.len() {
            assert(all[i + n] == back[i]);
        }
    }
    assert forall|i: int, j: int| #[trigger] has_log(front, i, j) implies has_log(all, i, j) by {
        assert(has_log(all, i, j) == has_log(front, i, j));
    }
    assert forall|i: int, j: int| i >= n && #[trigger] has_log(all, i, j) implies has_log(
        back,
        i - n,
        j,
    ) && all[i] == back[i - n] by {
        assert(has_log(back, i - n, j) == has_log(all, i - n + n, j));
    }
    assert forall|i: int, j: int| #[trigger] has_log(back, i, j) implies has_log(all, i + n, j)
        && all[i + n] == back[i] by {}

    if gas_limits_fit(all, contract) {
        assert forall|k: int, l: int| #[trigger]
            has_log(front, k, l) && sets_oversized_gas_limit(
                front[k].logs@[l],
                contract,
            ) implies exists|i: int, j: int| #[trigger]
            has_log(front, i, j) && precedes(i, j, k, l) && is_malformed(
                front[i].logs@[j],
                contract,
            ) by {
            assert(has_log(all, k, l));
            let (i, j) = choose|i: int, j: int| #[trigger]
                has_log(all, i, j) && precedes(i, j, k, l) && is_malformed(
                    all[i].logs@[j],
                    contract,
                );
            assert(has_log(front, i, j));
        }
        if updates_well_formed(front, contract) {
            assert forall|k: int, l: int| #[trigger]
                has_log(back, k, l) && sets_oversized_gas_limit(
                    back[k].logs@[l],
                    contract,
                ) implies exists|i: int, j: int| #[trigger]
                has_log(back, i, j) && precedes(i, j, k, l) && is_malformed(
                    back[i].logs@[j],
                    contract,
                ) by {
                assert(has_log(all, k + n, l));
                let (i, j) = choose|i: int, j: int| #[trigger]
                    has_log(all, i, j) && precedes(i, j, k + n, l) && is_malformed(
                        all[i].logs@[j],
                        contract,
                    );
                if i < n {
                    assert(has_log(front, i, j));
                    assert(false);
                }
                assert(has_log(back, i - n, j));
            }
        }
    }
    if gas_limits_fit(front, contract) && (updates_well_formed(front, contract) ==> gas_limits_fit(
        back,
        contract,
    )) {
        assert forall|k: int, l: int| #[trigger]
            has_log(all, k, l) && sets_oversized_gas_limit(
                all[k].logs@[l],
                contract,
            ) implies exists|i: int, j: int| #[trigger]
            has_log(all, i, j) && precedes(i, j, k, l) && is_malformed(
                all[i].logs@[j],
                contract,
            ) by {
            if k < n {
                assert(has_log(front, k, l));
                let (i, j) = choose|i: int, j: int| #[trigger]
                    has_log(front, i, j) && precedes(i, j, k, l) && is_malformed(
                        front[i].logs@[j],
                        contract,
                    );
                assert(has_log(all, i, j));
            } else if !updates_well_formed(front, contract) {
                let (i, j) = choose|i: int, j: int| #[trigger]
                    has_log(front, i, j) && is_malformed(front[i].logs@[j], contract);
                assert(has_log(all, i, j) && precedes(i, j, k, l));
            } else {
                assert(has_log(back, k - n, l));
                let (i, j) = choose|i: int, j: int| #[trigger]
                    has_log(back, i, j) && precedes(i, j, k - n, l) && is_malformed(
                        back[i].logs@[j],
                        contract,
                    );
                assert(has_log(all, i + n, j));
            }
        }
    }
}

/// Of one receipt with one log, the update is well-formed if the transaction failed or the log is
/// not malformed, and the gas limit fits if the transaction failed or the log sets no oversized one.
pub proof fn a_failed_transaction_updates_nothing(
    receipt: Receipt<Log<LogData>>,
    contract: Address,
)
    requires
        receipt.logs@.len() == 1,
    ensures
        ({
            let failed = receipt.status == Eip658Value::Eip658(false);
            &&& updates_well_formed(seq![receipt], contract) <==> failed || !is_malformed(
                receipt.logs@[0],
                contract,
            )
            &&& gas_limits_fit(seq![receipt], contract) <==> failed || !sets_oversized_gas_limit(
                receipt.logs@[0],
                contract,
            )
        }),
{
    let receipts = seq![receipt];
    assert(receipt.status != Eip658Value::Eip658(false) ==> has_log(receipts, 0, 0));
}

/// Receipts without a log of the contract hold no malformed update and no gas limit.
pub proof fn receipts_of_others_are_harmless(
    receipts: Seq<Receipt<Log<LogData>>>,
    contract: Address,
)
    requires
        forall|i: int, j: int|
            0 <= i < receipts.len() && 0 <= j < receipts[i].logs@.len()
                ==> (#[trigger] receipts[i].logs@[j]).address != contract,
    ensures
        no_log_from(receipts, contract),
        updates_well_formed(receipts, contract),
        gas_limits_fit(receipts, contract),
{
}

} // verus!
