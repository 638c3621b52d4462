//! The sum of the balances held on one channel, and how it moves when a
//! balance is written.

use vstd::prelude::*;

verus! {

/// What one balance record adds to the sum of `channel`: its amount when it
/// is filed under that channel, nothing otherwise.
pub open spec fn share(key: (Seq<char>, Seq<char>), amount: u128, channel: Seq<char>) -> nat {
    if key.0 == channel {
        amount as nat
    } else {
        0
    }
}

/// The sum of all balances that `balances` holds on `channel`.
pub open spec fn circulating(balances: Map<(Seq<char>, Seq<char>), u128>, channel: Seq<char>) -> nat
    decreases balances.dom().len(),
    when balances.dom().finite()
{
    if balances.dom().len() == 0 {
        0
    } else {
        let key = balances.dom().choose();
        share(key, balances[key], channel) + circulating(balances.remove(key), channel)
    }
}

/// What the record under `key` adds to the sum of `channel` now: nothing
/// when there is none.
pub open spec fn held(
    balances: Map<(Seq<char>, Seq<char>), u128>,
    key: (Seq<char>, Seq<char>),
    channel: Seq<char>,
) -> nat {
    if balances.contains_key(key) {
        share(key, balances[key], channel)
    } else {
        0
    }
}

/// The sum can be taken apart at any record, not only at the chosen one.
pub proof fn lemma_circulating_split(
    balances: Map<(Seq<char>, Seq<char>), u128>,
    key: (Seq<char>, Seq<char>),
    channel: Seq<char>,
)
    requires
        balances.dom().finite(),
        balances.contains_key(key),
    ensures
        circulating(balances, channel) == share(key, balances[key], channel) + circulating(
            balances.remove(key),
            channel,
        ),
    decreases balances.dom().len(),
{
    let first = balances.dom().choose();
    if first != key {
        lemma_circulating_split(balances.remove(first), key, channel);
        lemma_circulating_split(balances.remove(key), first, channel);
        assert(balances.remove(first).remove(key) =~= balances.remove(key).remove(first));
    }
}

/// Writing `amount` under `key` moves the sum of each channel by the
/// difference between the new record's share and the old one's.
pub proof fn lemma_circulating_insert(
    balances: Map<(Seq<char>, Seq<char>), u128>,
    key: (Seq<char>, Seq<char>),
    amount: u128,
    channel: Seq<char>,
)
    requires
        balances.dom().finite(),
    ensures
        circulating(balances.insert(key, amount), channel) + held(balances, key, channel)
            == circulating(balances, channel) + share(key, amount, channel),
{
    let written = balances.insert(key, amount);
    lemma_circulating_split(written, key, channel);
    assert(written.remove(key) =~= balances.remove(key));
    if balances.contains_key(key) {
        lemma_circulating_split(balances, key, channel);
    } else {
        assert(balances.remove(key) =~= balances);
    }
}

} // verus!
