//! Properties of the store that span several operations, proved over the
//! model that every operation of `CousinTea` is held to.
use vstd::prelude::*;
use crate::model::{
    StoreView,
    well_formed,
    ids_below,
    initial,
    add_commodity,
    alter_commodity,
    get_commodity,
    add_order,
    get_order,
    alter_order,
    OK,
    NOT_OWNER,
    NOT_AUTHORIZED,
    INVALID_ID,
    RECORD_MISSING,
};

verus! {

/// The statuses and final state of the caller adding each description of
/// `ds` as a commodity, in order.
pub open spec fn add_commodities(v: StoreView, caller: Seq<u8>, ds: Seq<Seq<char>>) -> (
    StoreView,
    Seq<u8>,
)
    decreases ds.len(),
{
    if ds.len() == 0 {
        (v, Seq::empty())
    } else {
        let (w, s) = add_commodity(v, caller, ds[0]);
        let (z, rest) = add_commodities(w, caller, ds.drop_first());
        (z, seq![s] + rest)
    }
}

/// Every operation keeps the store's invariant, wherever its counter has
/// room for one more id.
pub proof fn operations_keep_well_formed(
    v: StoreView,
    caller: Seq<u8>,
    id: u32,
    d: Seq<char>,
)
    requires
        well_formed(v),
    ensures
        v.commodity_count < u32::MAX ==> well_formed(add_commodity(v, caller, d).0),
        well_formed(alter_commodity(v, caller, id, d).0),
        v.order_count < u32::MAX ==> well_formed(add_order(v, caller, d).0),
        well_formed(alter_order(v, caller, id, d).0),
{
    if v.commodity_count < u32::MAX && caller == v.owner {
        let w = add_commodity(v, caller, d).0;
        assert(w.commodity_ids =~= Seq::new(w.commodity_count, |i: int| i as u32));
        assert(w.commodities.dom() =~= ids_below(w.commodity_count));
    }
    if v.order_count < u32::MAX {
        let w = add_order(v, caller, d).0;
        assert(w.order_clients.dom() =~= ids_below(w.order_count));
        assert(w.order_texts.dom() =~= ids_below(w.order_count));
    }
    let a = alter_commodity(v, caller, id, d).0;
    if a != v {
        assert(a.commodities.dom() =~= v.commodities.dom());
    }
    let b = alter_order(v, caller, id, d).0;
    if b != v {
        assert(b.order_texts.dom() =~= v.order_texts.dom());
    }
}

/// However many commodities the owner adds in a row, each add succeeds and
/// the count grows by exactly the number of adds; on a fresh store it equals
/// that number.
pub proof fn owner_adds_always_succeed(v: StoreView, ds: Seq<Seq<char>>)
    requires
        well_formed(v),
        v.commodity_count + ds.len() <= u32::MAX,
    ensures
        add_commodities(v, v.owner, ds).1 == Seq::new(ds.len(), |i: int| OK),
        add_commodities(v, v.owner, ds).0.commodity_count == v.commodity_count + ds.len(),
        add_commodities(v, v.owner, ds).0.owner == v.owner,
        well_formed(add_commodities(v, v.owner, ds).0),
    decreases ds.len(),
{
    if ds.len() > 0 {
        let w = add_commodity(v, v.owner, ds[0]).0;
        operations_keep_well_formed(v, v.owner, 0, ds[0]);
        owner_adds_always_succeed(w, ds.drop_first());
        let rest = add_commodities(w, v.owner, ds.drop_first()).1;
        assert(seq![OK] + rest =~= Seq::new(ds.len(), |i: int| OK));
    } else {
        assert(Seq::<u8>::empty() =~= Seq::new(0, |i: int| OK));
    }
}

/// A fresh store's commodity count equals the number of adds its owner made.
pub proof fn fresh_store_counts_owner_adds(owner: Seq<u8>, ds: Seq<Seq<char>>)
    requires
        ds.len() <= u32::MAX,
    ensures
        add_commodities(initial(owner), owner, ds).0.commodity_count == ds.len(),
        add_commodities(initial(owner), owner, ds).1 == Seq::new(ds.len(), |i: int| OK),
{
    let v = initial(owner);
    assert(v.commodity_ids =~= Seq::new(0, |i: int| i as u32));
    assert(v.commodities.dom() =~= ids_below(0));
    assert(v.order_clients.dom() =~= ids_below(0));
    assert(v.order_texts.dom() =~= ids_below(0));
    owner_adds_always_succeed(v, ds);
}

/// A commodity add by anyone but the owner is refused and changes nothing.
pub proof fn non_owner_cannot_add_commodity(v: StoreView, caller: Seq<u8>, d: Seq<char>)
    requires
        caller != v.owner,
    ensures
        add_commodity(v, caller, d) == (v, NOT_OWNER),
{
}

/// A commodity added under id `k` reads back as its description, and keeps
/// doing so across later commodity and order adds and order alterations.
pub proof fn added_commodity_reads_back(
    v: StoreView,
    d: Seq<char>,
    caller: Seq<u8>,
    id: u32,
    d2: Seq<char>,
)
    requires
        well_formed(v),
        v.commodity_count < u32::MAX,
    ensures
        ({
            let w = add_commodity(v, v.owner, d).0;
            let k = v.commodity_count as u32;
            &&& get_commodity(w, k) == d
            &&& get_commodity(add_commodity(w, caller, d2).0, k) == d
            &&& get_commodity(add_order(w, caller, d2).0, k) == d
            &&& get_commodity(alter_order(w, caller, id, d2).0, k) == d
        }),
{
    let w = add_commodity(v, v.owner, d).0;
    let k = v.commodity_count as u32;
    operations_keep_well_formed(v, v.owner, 0, d);
    if caller == w.owner && w.commodity_count < u32::MAX {
        assert(!ids_below(w.commodity_count).contains(w.commodity_count as u32));
    }
}

/// The owner altering an existing commodity succeeds, and the commodity then
/// reads as the new description.
pub proof fn owner_alters_commodity(v: StoreView, id: u32, d: Seq<char>)
    requires
        well_formed(v),
        v.commodities.contains_key(id),
    ensures
        alter_commodity(v, v.owner, id, d).1 == OK,
        get_commodity(alter_commodity(v, v.owner, id, d).0, id) == d,
{
}

/// A commodity alteration by anyone but the owner is refused, whatever the
/// id, and changes nothing.
pub proof fn non_owner_cannot_alter_commodity(
    v: StoreView,
    caller: Seq<u8>,
    id: u32,
    d: Seq<char>,
)
    requires
        caller != v.owner,
    ensures
        alter_commodity(v, caller, id, d) == (v, NOT_OWNER),
{
}

/// Adding an order hands out the current order count as its id, raises the
/// count by one and records the caller as the order's client.
pub proof fn add_order_records_client(v: StoreView, caller: Seq<u8>, d: Seq<char>)
    requires
        well_formed(v),
        v.order_count < u32::MAX,
    ensures
        add_order(v, caller, d).1 as nat == v.order_count,
        add_order(v, caller, d).0.order_count == v.order_count + 1,
        add_order(v, caller, d).0.order_clients[add_order(v, caller, d).1] == caller,
        add_order(v, caller, d).0.order_texts[add_order(v, caller, d).1] == d,
{
}

/// The owner reads any order's stored description, whoever submitted it.
pub proof fn owner_reads_every_order(v: StoreView, id: u32)
    requires
        well_formed(v),
        v.order_texts.contains_key(id),
    ensures
        get_order(v, v.owner, id) == v.order_texts[id],
{
}

/// Anyone who is neither the owner nor the order's client reads it as empty.
pub proof fn others_read_orders_as_empty(v: StoreView, caller: Seq<u8>, id: u32)
    requires
        caller != v.owner,
        !(v.order_clients.contains_key(id) && v.order_clients[id] == caller),
    ensures
        get_order(v, caller, id) == Seq::<char>::empty(),
{
}

/// The submitting client altering its order succeeds, and afterwards both
/// that client and the owner read the new description.
pub proof fn client_alters_own_order(v: StoreView, id: u32, d2: Seq<char>)
    requires
        well_formed(v),
        v.order_clients.contains_key(id),
    ensures
        ({
            let client = v.order_clients[id];
            let (w, st) = alter_order(v, client, id, d2);
            &&& st == OK
            &&& get_order(w, client, id) == d2
            &&& get_order(w, v.owner, id) == d2
        }),
{
}

/// An order alteration by anyone but its client, the owner included, is
/// refused and leaves the order as it was.
pub proof fn others_cannot_alter_order(v: StoreView, caller: Seq<u8>, id: u32, d2: Seq<char>)
    requires
        v.order_clients.contains_key(id),
        v.order_clients[id] != caller,
    ensures
        alter_order(v, caller, id, d2) == (v, NOT_AUTHORIZED),
{
}

/// Alterations of ids without records: an order id never issued, or a
/// commodity id above the counter, is an invalid id; the commodity counter
/// itself passes the range check and is then found missing.
pub proof fn alter_missing_ids(v: StoreView, caller: Seq<u8>, id: u32, d: Seq<char>)
    requires
        well_formed(v),
    ensures
        id as nat >= v.order_count ==> alter_order(v, caller, id, d) == (v, INVALID_ID),
        id as nat > v.commodity_count ==> alter_commodity(v, v.owner, id, d) == (v, INVALID_ID),
        id as nat == v.commodity_count ==> alter_commodity(v, v.owner, id, d) == (
            v,
            RECORD_MISSING,
        ),
{
}

} // verus!
