//! The record store itself: an owner, two id counters and the four
//! collections that hold commodity and order records.
use vstd::prelude::*;
use crate::account::AccountId;
use crate::model::{
    StoreView,
    well_formed,
    initial,
    add_commodity,
    alter_commodity,
    get_commodity,
    add_order,
    get_order,
    alter_order,
    ids_below,
    OK,
    NOT_OWNER,
    NOT_AUTHORIZED,
    INVALID_ID,
    RECORD_MISSING,
};
use crate::storage::{TextMap, AccountMap, IdList};

verus! {

/// An owner-gated commodity catalog and an order ledger. Every operation
/// names its caller, whose identity the hosting environment vouches for.
pub struct CousinTea {
    owner: AccountId,
    commody_incre: u32,
    order_incre: u32,
    commody_store: IdList,
    commody_info: TextMap,
    orders: AccountMap,
    orders_info: TextMap,
}

impl View for CousinTea {
    type V = StoreView;

    closed spec fn view(&self) -> StoreView {
        StoreView {
            owner: self.owner@,
            commodity_count: self.commody_incre as nat,
            commodity_ids: self.commody_store@,
            commodities: self.commody_info@,
            order_count: self.order_incre as nat,
            order_clients: self.orders@,
            order_texts: self.orders_info@,
        }
    }
}

impl CousinTea {
    /// The store's invariant.
    pub open spec fn wf(&self) -> bool {
        well_formed(self@)
    }

    /// Creates an empty store owned by `caller`, the party that deploys it.
    pub fn new(caller: AccountId) -> (r: CousinTea)
        ensures
            r@ == initial(caller@),
            r.wf(),
    {
        let r = CousinTea {
            owner: caller,
            commody_incre: 0,
            order_incre: 0,
            commody_store: IdList::new(),
            commody_info: TextMap::new(),
            orders: AccountMap::new(),
            orders_info: TextMap::new(),
        };
        assert(r@.commodity_ids =~= Seq::new(0, |i: int| i as u32));
        assert(r@.commodities.dom() =~= ids_below(0));
        assert(r@.order_clients.dom() =~= ids_below(0));
        assert(r@.order_texts.dom() =~= ids_below(0));
        r
    }

    /// The identity that owns the store.
    pub fn owner(&self) -> (r: AccountId)
        ensures
            r@ == self@.owner,
    {
        self.owner
    }

    /// The same as `new`.
    pub fn default(caller: AccountId) -> (r: CousinTea)
        ensures
            r@ == initial(caller@),
            r.wf(),
    {
        CousinTea::new(caller)
    }

    /// The owner lists a commodity under the next id; anyone else gets
    /// `NOT_OWNER` and nothing changes.
    pub fn add_commody(&mut self, caller: AccountId, commody_info: String) -> (r: u8)
        requires
            old(self).wf(),
            caller@ == old(self)@.owner ==> old(self)@.commodity_count < u32::MAX,
        ensures
            final(self).wf(),
            (final(self)@, r) == add_commodity(old(self)@, caller@, commody_info@),
    {
        if !self.owner.same_as(&caller) {
            return NOT_OWNER;
        }
        let id = self.commody_incre;
        self.commody_store.push(id);
        self.commody_info.insert(id, commody_info);
        self.commody_incre = id + 1;
        assert(self@.commodity_ids =~= Seq::new(self@.commodity_count, |i: int| i as u32));
        assert(self@.commodities.dom() =~= ids_below(self@.commodity_count));
        OK
    }

    /// The owner replaces the description of commodity `commody_id`.
    pub fn alter_commody(&mut self, caller: AccountId, commody_id: u32, commody_info: String) -> (r:
        u8)
        requires
            old(self).wf(),
        ensures
            final(self).wf(),
            (final(self)@, r) == alter_commodity(old(self)@, caller@, commody_id, commody_info@),
    {
        if !self.owner.same_as(&caller) {
            return NOT_OWNER;
        }
        if commody_id > self.commody_incre {
            return INVALID_ID;
        }
        if !self.commody_info.contains_key(commody_id) {
            return RECORD_MISSING;
        }
        self.commody_info.insert(commody_id, commody_info);
        assert(self@.commodities.dom() =~= ids_below(self@.commodity_count));
        OK
    }

    /// The description of commodity `commody_id`, or the empty string.
    pub fn get_commody(&self, commody_id: u32) -> (r: String)
        ensures
            r@ == get_commodity(self@, commody_id),
    {
        match self.commody_info.get(commody_id) {
            Some(s) => s,
            None => String::new(),
        }
    }

    /// The number of commodities listed so far: the next id to be issued.
    pub fn commody_count(&self) -> (r: u32)
        ensures
            r as nat == self@.commodity_count,
    {
        self.commody_incre
    }

    /// Records an order from `caller` and returns its id.
    pub fn add_order(&mut self, caller: AccountId, order_info: String) -> (r: u32)
        requires
            old(self).wf(),
            old(self)@.order_count < u32::MAX,
        ensures
            final(self).wf(),
            (final(self)@, r) == add_order(old(self)@, caller@, order_info@),
    {
        let id = self.order_incre;
        self.orders.insert(id, caller.bytes);
        self.orders_info.insert(id, order_info);
        self.order_incre = id + 1;
        assert(self@.order_clients.dom() =~= ids_below(self@.order_count));
        assert(self@.order_texts.dom() =~= ids_below(self@.order_count));
        id
    }

    /// The description of order `order_id` if `caller` is the owner or the
    /// client who submitted it; otherwise the empty string.
    pub fn get_order(&self, caller: AccountId, order_id: u32) -> (r: String)
        ensures
            r@ == get_order(self@, caller@, order_id),
    {
        if caller.same_as(&self.owner) {
            return self.order_text(order_id);
        }
        match self.orders.get(order_id) {
            Some(bytes) => {
                let client = AccountId::from_bytes(bytes);
                if client.same_as(&caller) {
                    self.order_text(order_id)
                } else {
                    String::new()
                }
            },
            None => String::new(),
        }
    }

    fn order_text(&self, order_id: u32) -> (r: String)
        ensures
            r@ == crate::model::text_or_empty(self@.order_texts, order_id),
    {
        match self.orders_info.get(order_id) {
            Some(s) => s,
            None => String::new(),
        }
    }

    /// The number of orders recorded so far: the next id to be issued.
    pub fn order_count(&self) -> (r: u32)
        ensures
            r as nat == self@.order_count,
    {
        self.order_incre
    }

    /// The client who submitted order `order_id` replaces its description.
    pub fn alter_order(&mut self, caller: AccountId, order_id: u32, altered_info: String) -> (r:
        u8)
        requires
            old(self).wf(),
        ensures
            final(self).wf(),
            (final(self)@, r) == alter_order(old(self)@, caller@, order_id, altered_info@),
    {
        match self.orders.get(order_id) {
            Some(bytes) => {
                let client = AccountId::from_bytes(bytes);
                if !client.same_as(&caller) {
                    return NOT_AUTHORIZED;
                }
            },
            None => {
                return INVALID_ID;
            },
        }
        if !self.orders_info.contains_key(order_id) {
            return RECORD_MISSING;
        }
        self.orders_info.insert(order_id, altered_info);
        assert(self@.order_texts.dom() =~= ids_below(self@.order_count));
        OK
    }
}

} // verus!
