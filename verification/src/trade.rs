//! The pending-trade ledger: the only state the settlement engine
//! keeps during a session.
//!
//! An item identifier maps to at most one [`Trade`]; absence means
//! "no open purchase". A trade is written once by a purchase, read
//! until claimed, and removed by a successful claim.

use vstd::prelude::*;

use std::collections::BTreeMap;

use crate::account::Identity;

verus! {

broadcast use vstd::std_specs::btree::group_btree_axioms, vstd::laws_cmp::group_laws_cmp;

/// One pending escrowed sale: the item's owner at purchase time and
/// the amount the buyer promised.
pub struct Trade {
    pub seller: Identity,
    pub amount: u64,
}

/// Ordered map from item identifier to its pending trade.
pub struct TradeLedger {
    map: BTreeMap<i128, Trade>,
}

impl View for TradeLedger {
    type V = Map<i128, Trade>;

    closed spec fn view(&self) -> Map<i128, Trade> {
        self.map@
    }
}

impl TradeLedger {
    /// An empty ledger: no item has an open purchase.
    pub fn new() -> (r: Self)
        ensures
            r@ == Map::<i128, Trade>::empty(),
    {
        TradeLedger { map: BTreeMap::new() }
    }

    /// Inserts or overwrites the trade for an item, returning the
    /// previous trade if one was pending.
    pub fn put(&mut self, item_id: i128, trade: Trade) -> (prev: Option<Trade>)
        ensures
            final(self)@ == old(self)@.insert(item_id, trade),
            match prev {
                Some(t) => old(self)@.contains_key(item_id) && t == old(self)@[item_id],
                None => !old(self)@.contains_key(item_id),
            },
    {
        self.map.insert(item_id, trade)
    }

    /// Looks the pending trade for an item up; no side effects.
    pub fn get(&self, item_id: i128) -> (r: Option<&Trade>)
        ensures
            match r {
                Some(t) => self@.contains_key(item_id) && *t == self@[item_id],
                None => !self@.contains_key(item_id),
            },
    {
        self.map.get(&item_id)
    }

    /// Deletes the trade for an item; a no-op if none is pending.
    pub fn remove(&mut self, item_id: i128) -> (r: Option<Trade>)
        ensures
            final(self)@ == old(self)@.remove(item_id),
            match r {
                Some(t) => old(self)@.contains_key(item_id) && t == old(self)@[item_id],
                None => !old(self)@.contains_key(item_id),
            },
    {
        self.map.remove(&item_id)
    }

    /// The number of pending trades.
    pub fn len(&self) -> (r: usize)
        ensures
            r == self@.len(),
    {
        self.map.len()
    }
}

} // verus!
