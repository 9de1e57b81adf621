//! The store as a mathematical state, and each operation as a transition on
//! it. The executable store is held to these functions exactly.
use vstd::prelude::*;

verus! {

/// Status: the operation took effect.
pub const OK: u8 = 0;

/// Status: a commodity operation was attempted by someone other than the owner.
pub const NOT_OWNER: u8 = 1;

/// Status: an order was altered by someone other than its submitting client.
pub const NOT_AUTHORIZED: u8 = 1;

/// Status: the id lies beyond any record that could exist.
pub const INVALID_ID: u8 = 2;

/// Status: the id passed the range check but has no stored description.
pub const RECORD_MISSING: u8 = 3;

/// The observable state of the store.
pub struct StoreView {
    /// The identity that may add and alter commodities.
    pub owner: Seq<u8>,
    /// The next commodity id to be issued.
    pub commodity_count: nat,
    /// Every commodity id issued so far, in order of issue.
    pub commodity_ids: Seq<u32>,
    /// Commodity descriptions by id.
    pub commodities: Map<u32, Seq<char>>,
    /// The next order id to be issued.
    pub order_count: nat,
    /// The submitting client of each order.
    pub order_clients: Map<u32, Seq<u8>>,
    /// Order descriptions by id.
    pub order_texts: Map<u32, Seq<char>>,
}

/// The ids `0 .. n`.
pub open spec fn ids_below(n: nat) -> Set<u32> {
    Set::new(|k: u32| (k as nat) < n)
}

/// The invariant of the store: counters fit in `u32`, every issued
/// commodity id is listed in order of issue, and exactly the issued ids of
/// each kind carry records.
pub open spec fn well_formed(v: StoreView) -> bool {
    &&& v.commodity_count <= u32::MAX
    &&& v.order_count <= u32::MAX
    &&& v.commodity_ids == Seq::new(v.commodity_count, |i: int| i as u32)
    &&& v.commodities.dom() == ids_below(v.commodity_count)
    &&& v.order_clients.dom() == ids_below(v.order_count)
    &&& v.order_texts.dom() == ids_below(v.order_count)
}

/// The stored description, or the empty text where there is none.
pub open spec fn text_or_empty(m: Map<u32, Seq<char>>, id: u32) -> Seq<char> {
    if m.contains_key(id) {
        m[id]
    } else {
        Seq::empty()
    }
}

/// A freshly created store.
pub open spec fn initial(owner: Seq<u8>) -> StoreView {
    StoreView {
        owner,
        commodity_count: 0,
        commodity_ids: Seq::empty(),
        commodities: Map::empty(),
        order_count: 0,
        order_clients: Map::empty(),
        order_texts: Map::empty(),
    }
}

/// The owner lists a new commodity under the next id.
pub open spec fn add_commodity(v: StoreView, caller: Seq<u8>, d: Seq<char>) -> (StoreView, u8) {
    if caller != v.owner {
        (v, NOT_OWNER)
    } else {
        let id = v.commodity_count as u32;
        (
            StoreView {
                commodity_count: v.commodity_count + 1,
                commodity_ids: v.commodity_ids.push(id),
                commodities: v.commodities.insert(id, d),
                ..v
            },
            OK,
        )
    }
}

/// The owner replaces the description of a commodity. Only ids above the
/// counter are turned away by the range check; the counter itself is turned
/// away by the lookup.
pub open spec fn alter_commodity(v: StoreView, caller: Seq<u8>, id: u32, d: Seq<char>) -> (
    StoreView,
    u8,
) {
    if caller != v.owner {
        (v, NOT_OWNER)
    } else if id as nat > v.commodity_count {
        (v, INVALID_ID)
    } else if !v.commodities.contains_key(id) {
        (v, RECORD_MISSING)
    } else {
        (StoreView { commodities: v.commodities.insert(id, d), ..v }, OK)
    }
}

/// Anyone reads a commodity description; absent ones read as empty.
pub open spec fn get_commodity(v: StoreView, id: u32) -> Seq<char> {
    text_or_empty(v.commodities, id)
}

/// Any caller submits an order, which gets the next order id.
pub open spec fn add_order(v: StoreView, caller: Seq<u8>, d: Seq<char>) -> (StoreView, u32) {
    let id = v.order_count as u32;
    (
        StoreView {
            order_count: v.order_count + 1,
            order_clients: v.order_clients.insert(id, caller),
            order_texts: v.order_texts.insert(id, d),
            ..v
        },
        id,
    )
}

/// Whether the caller may read an order: the owner always, otherwise only
/// the client who submitted it.
pub open spec fn may_read_order(v: StoreView, caller: Seq<u8>, id: u32) -> bool {
    caller == v.owner || (v.order_clients.contains_key(id) && v.order_clients[id] == caller)
}

/// An order description as the caller sees it: empty where the order is
/// absent, has no description, or is hidden from the caller.
pub open spec fn get_order(v: StoreView, caller: Seq<u8>, id: u32) -> Seq<char> {
    if may_read_order(v, caller, id) {
        text_or_empty(v.order_texts, id)
    } else {
        Seq::empty()
    }
}

/// The submitting client replaces the description of an order. The owner
/// has no say here.
pub open spec fn alter_order(v: StoreView, caller: Seq<u8>, id: u32, d: Seq<char>) -> (
    StoreView,
    u8,
) {
    if !v.order_clients.contains_key(id) {
        (v, INVALID_ID)
    } else if v.order_clients[id] != caller {
        (v, NOT_AUTHORIZED)
    } else if !v.order_texts.contains_key(id) {
        (v, RECORD_MISSING)
    } else {
        (StoreView { order_texts: v.order_texts.insert(id, d), ..v }, OK)
    }
}

} // verus!
