//! The ledger store: per-channel token records, balances, allowances under
//! two mirrored indexes, the counters of open channels, and the chains that
//! count as peers.

use crate::error::ContractError;
use crate::expiration::Expiration;
use crate::supply::circulating;
use crate::table::{lists, Entry, StoreKey, Table};
use vstd::prelude::*;

verus! {

/// Who may mint a channel's token, and up to which total supply.
#[derive(Clone, Debug, PartialEq, Eq)]
pub struct MinterData {
    pub minter: String,
    /// The highest total supply that minting may reach; no limit when absent.
    pub cap: Option<u128>,
}

/// The token record of one channel.
#[derive(Clone, Debug, PartialEq, Eq)]
pub struct TokenInfo {
    pub name: String,
    pub symbol: String,
    pub decimals: u8,
    pub total_supply: u128,
    pub mint: Option<MinterData>,
}

impl TokenInfo {
    /// The cap of the minter, when there is a minter and it has one.
    pub open spec fn cap(&self) -> Option<u128> {
        match self.mint {
            Some(data) => data.cap,
            None => None,
        }
    }

    /// The cap of the minter, when there is a minter and it has one.
    pub fn get_cap(&self) -> (cap: Option<u128>)
        ensures
            cap == self.cap(),
    {
        match &self.mint {
            Some(data) => data.cap,
            None => None,
        }
    }
}

/// The chains that count as peers of this ledger.
#[derive(Clone, Debug, PartialEq, Eq)]
pub struct Chains {
    pub other_chains: Vec<String>,
}

impl Chains {
    /// Whether `chain` is one of the listed chains.
    pub open spec fn lists(&self, chain: Seq<char>) -> bool {
        exists|i: int| 0 <= i < self.other_chains@.len() && (#[trigger] self.other_chains@[i])@ == chain
    }

    /// Whether `chain` is a recognised peer. Never fails.
    pub fn is_allowed(&self, chain: String) -> (allowed: Result<bool, ContractError>)
        ensures
            allowed is Ok,
            allowed->Ok_0 == self.lists(chain@),
    {
        let mut i: usize = 0;
        while i < self.other_chains.len()
            invariant
                i <= self.other_chains@.len(),
                forall|j: int| 0 <= j < i ==> (#[trigger] self.other_chains@[j])@ != chain@,
            decreases self.other_chains@.len() - i,
        {
            if self.other_chains[i] == chain {
                return Ok(true);
            }
            i += 1;
        }
        Ok(false)
    }
}

/// What a spender may still move of an owner's balance, and until when.
#[derive(Clone, Copy, Debug, PartialEq, Eq)]
pub struct AllowanceResponse {
    pub allowance: u128,
    pub expires: Expiration,
}

impl AllowanceResponse {
    /// The record that stands for "no allowance": nothing, never lapsing.
    pub open spec fn none() -> AllowanceResponse {
        AllowanceResponse { allowance: 0, expires: Expiration::Never }
    }
}

impl Default for AllowanceResponse {
    fn default() -> (record: Self)
        ensures
            record == AllowanceResponse::none(),
    {
        AllowanceResponse { allowance: 0, expires: Expiration::Never }
    }
}

/// The key of a balance: the channel first, then the holder.
#[derive(Clone, Debug, PartialEq, Eq)]
pub struct BalanceKey {
    pub channel: String,
    pub address: String,
}

impl View for BalanceKey {
    type V = (Seq<char>, Seq<char>);

    open spec fn view(&self) -> (Seq<char>, Seq<char>) {
        (self.channel@, self.address@)
    }
}

impl StoreKey for BalanceKey {
    fn same_key(&self, other: &Self) -> (same: bool) {
        self.channel == other.channel && self.address == other.address
    }
}

impl BalanceKey {
    /// The key of the balance that `address` holds on `channel`.
    pub fn new(channel: &String, address: &String) -> (key: Self)
        ensures
            key@ == (channel@, address@),
    {
        BalanceKey { channel: channel.clone(), address: address.clone() }
    }
}

/// The key of an allowance: the channel first, then the two parties. In the
/// primary index the owner comes before the spender; in the mirror index the
/// spender comes before the owner.
#[derive(Clone, Debug, PartialEq, Eq)]
pub struct AllowanceKey {
    pub channel: String,
    pub first: String,
    pub second: String,
}

impl View for AllowanceKey {
    type V = (Seq<char>, Seq<char>, Seq<char>);

    open spec fn view(&self) -> (Seq<char>, Seq<char>, Seq<char>) {
        (self.channel@, self.first@, self.second@)
    }
}

impl StoreKey for AllowanceKey {
    fn same_key(&self, other: &Self) -> (same: bool) {
        self.channel == other.channel && self.first == other.first && self.second == other.second
    }
}

impl AllowanceKey {
    /// The key under which the primary index files the grant of `owner` to
    /// `spender` on `channel`.
    pub fn primary(channel: &String, owner: &String, spender: &String) -> (key: Self)
        ensures
            key@ == (channel@, owner@, spender@),
    {
        AllowanceKey { channel: channel.clone(), first: owner.clone(), second: spender.clone() }
    }

    /// The key under which the mirror index files the same grant: the two
    /// parties in reverse order.
    pub fn mirror(channel: &String, owner: &String, spender: &String) -> (key: Self)
        ensures
            key@ == (channel@, spender@, owner@),
    {
        AllowanceKey { channel: channel.clone(), first: spender.clone(), second: owner.clone() }
    }
}

/// What the ledger holds, as five finite maps.
pub ghost struct LedgerView {
    /// Balances by (channel, holder). No record means zero.
    pub balances: Map<(Seq<char>, Seq<char>), u128>,
    /// Allowances by (channel, owner, spender).
    pub allowances: Map<(Seq<char>, Seq<char>, Seq<char>), AllowanceResponse>,
    /// The same allowances by (channel, spender, owner).
    pub allowances_spender: Map<(Seq<char>, Seq<char>, Seq<char>), AllowanceResponse>,
    /// Token records by channel.
    pub token_info: Map<Seq<char>, TokenInfo>,
    /// Counters of the open channels.
    pub connection_counts: Map<Seq<char>, u32>,
}

impl LedgerView {
    /// The balance of `address` on `channel`: zero when there is no record.
    pub open spec fn balance(self, channel: Seq<char>, address: Seq<char>) -> u128 {
        if self.balances.contains_key((channel, address)) {
            self.balances[(channel, address)]
        } else {
            0
        }
    }

    /// The allowance that `owner` has granted to `spender` on `channel`, if
    /// there is a record of one.
    pub open spec fn allowance(self, channel: Seq<char>, owner: Seq<char>, spender: Seq<char>) -> Option<
        AllowanceResponse,
    > {
        if self.allowances.contains_key((channel, owner, spender)) {
            Some(self.allowances[(channel, owner, spender)])
        } else {
            None
        }
    }

    /// The allowance under the mirror index, looked up by the spender first.
    pub open spec fn allowance_by_spender(
        self,
        channel: Seq<char>,
        spender: Seq<char>,
        owner: Seq<char>,
    ) -> Option<AllowanceResponse> {
        if self.allowances_spender.contains_key((channel, spender, owner)) {
            Some(self.allowances_spender[(channel, spender, owner)])
        } else {
            None
        }
    }

    /// The total supply recorded for `channel`: zero when it has no token
    /// record.
    pub open spec fn total_supply(self, channel: Seq<char>) -> nat {
        if self.token_info.contains_key(channel) {
            self.token_info[channel].total_supply as nat
        } else {
            0
        }
    }

    /// The two allowance indexes hold the same grants: a record stands under
    /// (channel, owner, spender) in the primary index exactly when the same
    /// record stands under (channel, spender, owner) in the mirror.
    pub open spec fn mirrored(self) -> bool {
        forall|channel: Seq<char>, owner: Seq<char>, spender: Seq<char>|
            #![trigger self.allowances.contains_key((channel, owner, spender))]
            #![trigger self.allowances_spender.contains_key((channel, spender, owner))]
            self.allowance(channel, owner, spender) == self.allowance_by_spender(
                channel,
                spender,
                owner,
            )
    }

    /// On `channel`, the recorded total supply is the sum of the balances.
    pub open spec fn supply_backed_on(self, channel: Seq<char>) -> bool {
        self.total_supply(channel) == circulating(self.balances, channel)
    }

    /// On every channel, the recorded total supply is the sum of the balances.
    pub open spec fn supply_backed(self) -> bool {
        forall|channel: Seq<char>| #[trigger] self.supply_backed_on(channel)
    }

    /// Every channel whose total supply is the sum of its balances in this
    /// state still has it so in `after`.
    pub open spec fn keeps_supply_backed(self, after: LedgerView) -> bool {
        forall|channel: Seq<char>|
            self.supply_backed_on(channel) ==> #[trigger] after.supply_backed_on(channel)
    }

    /// This state with the balance of `address` on `channel` set to `amount`.
    pub open spec fn with_balance(self, channel: Seq<char>, address: Seq<char>, amount: u128) -> LedgerView {
        LedgerView { balances: self.balances.insert((channel, address), amount), ..self }
    }

    /// This state with `record` as the grant of `owner` to `spender` on
    /// `channel`, under both indexes.
    pub open spec fn with_allowance(
        self,
        channel: Seq<char>,
        owner: Seq<char>,
        spender: Seq<char>,
        record: AllowanceResponse,
    ) -> LedgerView {
        LedgerView {
            allowances: self.allowances.insert((channel, owner, spender), record),
            allowances_spender: self.allowances_spender.insert((channel, spender, owner), record),
            ..self
        }
    }

    /// This state without a grant of `owner` to `spender` on `channel`, under
    /// either index.
    pub open spec fn without_allowance(
        self,
        channel: Seq<char>,
        owner: Seq<char>,
        spender: Seq<char>,
    ) -> LedgerView {
        LedgerView {
            allowances: self.allowances.remove((channel, owner, spender)),
            allowances_spender: self.allowances_spender.remove((channel, spender, owner)),
            ..self
        }
    }

    /// This state with `info` as the token record of `channel`.
    pub open spec fn with_token_info(self, channel: Seq<char>, info: TokenInfo) -> LedgerView {
        LedgerView { token_info: self.token_info.insert(channel, info), ..self }
    }

    /// This state with `count` as the counter of `channel`.
    pub open spec fn with_count(self, channel: Seq<char>, count: u32) -> LedgerView {
        LedgerView { connection_counts: self.connection_counts.insert(channel, count), ..self }
    }

    /// This state without a counter for `channel`.
    pub open spec fn without_count(self, channel: Seq<char>) -> LedgerView {
        LedgerView { connection_counts: self.connection_counts.remove(channel), ..self }
    }
}

/// The ledger store. Every key starts with the channel, so the records of one
/// channel are out of reach of another's.
pub struct Ledger {
    balances: Table<BalanceKey, u128>,
    allowances: Table<AllowanceKey, AllowanceResponse>,
    allowances_spender: Table<AllowanceKey, AllowanceResponse>,
    token_info: Table<String, TokenInfo>,
    connection_counts: Table<String, u32>,
}

impl View for Ledger {
    type V = LedgerView;

    closed spec fn view(&self) -> LedgerView {
        LedgerView {
            balances: self.balances@,
            allowances: self.allowances@,
            allowances_spender: self.allowances_spender@,
            token_info: self.token_info@,
            connection_counts: self.connection_counts@,
        }
    }
}

impl Ledger {
    /// The store is sound: each index holds each key once, and the two
    /// allowance indexes mirror each other.
    pub closed spec fn wf(&self) -> bool {
        &&& self.balances.wf()
        &&& self.allowances.wf()
        &&& self.allowances_spender.wf()
        &&& self.token_info.wf()
        &&& self.connection_counts.wf()
        &&& self@.mirrored()
    }

    /// In a sound store the primary allowance record and its mirror are the
    /// same record, or both absent, for every channel, owner and spender; and
    /// the store holds finitely many balances.
    pub proof fn lemma_mirror(&self)
        requires
            self.wf(),
        ensures
            self@.mirrored(),
            self@.balances.dom().finite(),
    {
        self.balances.lemma_finite();
    }

    /// The empty store.
    pub fn new() -> (ledger: Self)
        ensures
            ledger.wf(),
            ledger@.balances == Map::<(Seq<char>, Seq<char>), u128>::empty(),
            ledger@.allowances == Map::<(Seq<char>, Seq<char>, Seq<char>), AllowanceResponse>::empty(),
            ledger@.allowances_spender == Map::<
                (Seq<char>, Seq<char>, Seq<char>),
                AllowanceResponse,
            >::empty(),
            ledger@.token_info == Map::<Seq<char>, TokenInfo>::empty(),
            ledger@.connection_counts == Map::<Seq<char>, u32>::empty(),
            ledger@.supply_backed(),
    {
        assert forall|channel: Seq<char>|
            circulating(Map::<(Seq<char>, Seq<char>), u128>::empty(), channel) == 0 by {
            assert(Map::<(Seq<char>, Seq<char>), u128>::empty().dom().len() == 0);
        }
        Ledger {
            balances: Table::new(),
            allowances: Table::new(),
            allowances_spender: Table::new(),
            token_info: Table::new(),
            connection_counts: Table::new(),
        }
    }

    /// The balance of `address` on `channel`: zero when there is no record.
    pub fn balance(&self, channel: &String, address: &String) -> (amount: u128)
        requires
            self.wf(),
        ensures
            amount == self@.balance(channel@, address@),
    {
        let key = BalanceKey::new(channel, address);
        match self.balances.get(&key) {
            Some(amount) => *amount,
            None => 0,
        }
    }

    /// Sets the balance of `address` on `channel` to `amount`.
    pub fn set_balance(&mut self, channel: &String, address: &String, amount: u128)
        requires
            old(self).wf(),
        ensures
            final(self).wf(),
            final(self)@ == old(self)@.with_balance(channel@, address@, amount),
    {
        self.balances.insert(BalanceKey::new(channel, address), amount);
    }

    /// The grant of `owner` to `spender` on `channel`, found under the
    /// primary index.
    pub fn allowance(&self, channel: &String, owner: &String, spender: &String) -> (record: Option<
        AllowanceResponse,
    >)
        requires
            self.wf(),
        ensures
            record == self@.allowance(channel@, owner@, spender@),
    {
        let key = AllowanceKey::primary(channel, owner, spender);
        match self.allowances.get(&key) {
            Some(record) => Some(*record),
            None => None,
        }
    }

    /// The grant of `owner` to `spender` on `channel`, found under the mirror
    /// index. It is the record that `allowance` finds.
    pub fn allowance_by_spender(&self, channel: &String, spender: &String, owner: &String) -> (record:
        Option<AllowanceResponse>)
        requires
            self.wf(),
        ensures
            record == self@.allowance_by_spender(channel@, spender@, owner@),
            record == self@.allowance(channel@, owner@, spender@),
    {
        let key = AllowanceKey::mirror(channel, owner, spender);
        proof {
            assert(self@.allowances.contains_key((channel@, owner@, spender@))
                || !self@.allowances.contains_key((channel@, owner@, spender@)));
        }
        match self.allowances_spender.get(&key) {
            Some(record) => Some(*record),
            None => None,
        }
    }

    /// Files `record` as the grant of `owner` to `spender` on `channel`,
    /// under both indexes.
    pub fn set_allowance(
        &mut self,
        channel: &String,
        owner: &String,
        spender: &String,
        record: AllowanceResponse,
    )
        requires
            old(self).wf(),
        ensures
            final(self).wf(),
            final(self)@ == old(self)@.with_allowance(channel@, owner@, spender@, record),
    {
        self.allowances.insert(AllowanceKey::primary(channel, owner, spender), record);
        self.allowances_spender.insert(AllowanceKey::mirror(channel, owner, spender), record);
        proof {
            old(self)@.lemma_with_allowance_mirrored(channel@, owner@, spender@, record);
        }
    }

    /// Deletes the grant of `owner` to `spender` on `channel` from both
    /// indexes.
    pub fn remove_allowance(&mut self, channel: &String, owner: &String, spender: &String)
        requires
            old(self).wf(),
        ensures
            final(self).wf(),
            final(self)@ == old(self)@.without_allowance(channel@, owner@, spender@),
    {
        self.allowances.remove(&AllowanceKey::primary(channel, owner, spender));
        self.allowances_spender.remove(&AllowanceKey::mirror(channel, owner, spender));
        proof {
            old(self)@.lemma_without_allowance_mirrored(channel@, owner@, spender@);
        }
    }

    /// The token record of `channel`, if it has one.
    pub fn token_info(&self, channel: &String) -> (info: Option<&TokenInfo>)
        requires
            self.wf(),
        ensures
            match info {
                Some(found) => self@.token_info.contains_key(channel@) && self@.token_info[channel@]
                    == *found,
                None => !self@.token_info.contains_key(channel@),
            },
    {
        self.token_info.get(channel)
    }

    /// Files `info` as the token record of `channel`.
    pub fn set_token_info(&mut self, channel: &String, info: TokenInfo)
        requires
            old(self).wf(),
        ensures
            final(self).wf(),
            final(self)@ == old(self)@.with_token_info(channel@, info),
    {
        self.token_info.insert(channel.clone(), info);
    }

    /// The counter of `channel`, if the channel is open.
    pub fn connection_count(&self, channel: &String) -> (count: Option<u32>)
        requires
            self.wf(),
        ensures
            count == self@.connection_counts.get(channel@),
    {
        match self.connection_counts.get(channel) {
            Some(count) => Some(*count),
            None => None,
        }
    }

    /// Sets the counter of `channel` to `count`.
    pub fn set_connection_count(&mut self, channel: &String, count: u32)
        requires
            old(self).wf(),
        ensures
            final(self).wf(),
            final(self)@ == old(self)@.with_count(channel@, count),
    {
        self.connection_counts.insert(channel.clone(), count);
    }

    /// All balance records, each key once.
    pub fn balance_entries(&self) -> (entries: &Vec<Entry<BalanceKey, u128>>)
        requires
            self.wf(),
        ensures
            lists(entries@, self@.balances),
    {
        self.balances.entries()
    }

    /// All allowance records as the primary index files them, each key once.
    /// The mirror index holds the same records with the parties reversed.
    pub fn allowance_entries(&self) -> (entries: &Vec<Entry<AllowanceKey, AllowanceResponse>>)
        requires
            self.wf(),
        ensures
            lists(entries@, self@.allowances),
    {
        self.allowances.entries()
    }

    /// All token records, each channel once.
    pub fn token_entries(&self) -> (entries: &Vec<Entry<String, TokenInfo>>)
        requires
            self.wf(),
        ensures
            lists(entries@, self@.token_info),
    {
        self.token_info.entries()
    }

    /// All counters, each channel once.
    pub fn count_entries(&self) -> (entries: &Vec<Entry<String, u32>>)
        requires
            self.wf(),
        ensures
            lists(entries@, self@.connection_counts),
    {
        self.connection_counts.entries()
    }

    /// Removes the counter of `channel`.
    pub fn remove_connection_count(&mut self, channel: &String)
        requires
            old(self).wf(),
        ensures
            final(self).wf(),
            final(self)@ == old(self)@.without_count(channel@),
    {
        self.connection_counts.remove(channel);
    }
}

impl LedgerView {
    /// Filing one record under both indexes keeps them mirrored.
    pub proof fn lemma_with_allowance_mirrored(
        self,
        channel: Seq<char>,
        owner: Seq<char>,
        spender: Seq<char>,
        record: AllowanceResponse,
    )
        requires
            self.mirrored(),
        ensures
            self.with_allowance(channel, owner, spender, record).mirrored(),
    {
        let after = self.with_allowance(channel, owner, spender, record);
        assert forall|c: Seq<char>, o: Seq<char>, s: Seq<char>|
            after.allowance(c, o, s) == after.allowance_by_spender(c, s, o) by {
            assert(self.allowance(c, o, s) == self.allowance_by_spender(c, s, o)) by {
                assert(self.allowances.contains_key((c, o, s)) || !self.allowances.contains_key(
                    (c, o, s),
                ));
            }
        }
    }

    /// Deleting one grant from both indexes keeps them mirrored.
    pub proof fn lemma_without_allowance_mirrored(
        self,
        channel: Seq<char>,
        owner: Seq<char>,
        spender: Seq<char>,
    )
        requires
            self.mirrored(),
        ensures
            self.without_allowance(channel, owner, spender).mirrored(),
    {
        let after = self.without_allowance(channel, owner, spender);
        assert forall|c: Seq<char>, o: Seq<char>, s: Seq<char>|
            after.allowance(c, o, s) == after.allowance_by_spender(c, s, o) by {
            assert(self.allowance(c, o, s) == self.allowance_by_spender(c, s, o)) by {
                assert(self.allowances.contains_key((c, o, s)) || !self.allowances.contains_key(
                    (c, o, s),
                ));
            }
        }
    }
}

} // verus!
