//! The `ink_storage` collections that hold the store's records. Verus sees
//! each one only through a name for what it holds and the contracts of the
//! few operations the store performs on it.
use vstd::prelude::*;

verus! {

/// Descriptions keyed by record id, in an `ink_storage` hash map.
#[verifier::external_body]
pub struct TextMap {
    inner: ink_storage::collections::HashMap<u32, String>,
}

/// The entries of a `TextMap`, each description as its characters.
pub uninterp spec fn text_entries(m: TextMap) -> Map<u32, Seq<char>>;

impl View for TextMap {
    type V = Map<u32, Seq<char>>;

    open spec fn view(&self) -> Map<u32, Seq<char>> {
        text_entries(*self)
    }
}

impl TextMap {
    /// Relies on ink_storage's `HashMap::new`: a fresh map has no entries.
    #[verifier::external_body]
    pub(crate) fn new() -> (r: TextMap)
        ensures
            text_entries(r) =~= Map::empty(),
    {
        TextMap { inner: ink_storage::collections::HashMap::new() }
    }

    /// Relies on ink_storage's `HashMap::insert`: the key maps to the new
    /// value afterwards, whether or not it was present, and no other entry
    /// changes.
    #[verifier::external_body]
    pub(crate) fn insert(&mut self, key: u32, value: String)
        ensures
            text_entries(*final(self)) == text_entries(*old(self)).insert(key, value@),
    {
        self.inner.insert(key, value);
    }

    /// Relies on ink_storage's `HashMap::get`: the value stored under the key,
    /// if any.
    #[verifier::external_body]
    pub(crate) fn get(&self, key: u32) -> (r: Option<String>)
        ensures
            match r {
                Some(s) => text_entries(*self).contains_key(key) && s@ == text_entries(*self)[key],
                None => !text_entries(*self).contains_key(key),
            },
    {
        self.inner.get(&key).cloned()
    }

    /// Relies on ink_storage's `HashMap::contains_key`: whether an entry
    /// exists for the key.
    #[verifier::external_body]
    pub(crate) fn contains_key(&self, key: u32) -> (r: bool)
        ensures
            r == text_entries(*self).contains_key(key),
    {
        self.inner.contains_key(&key)
    }
}

/// Raw account identities keyed by record id, in an `ink_storage` hash map.
#[verifier::external_body]
pub struct AccountMap {
    inner: ink_storage::collections::HashMap<u32, [u8; 32]>,
}

/// The entries of an `AccountMap`, each identity as its bytes.
pub uninterp spec fn account_entries(m: AccountMap) -> Map<u32, Seq<u8>>;

impl View for AccountMap {
    type V = Map<u32, Seq<u8>>;

    open spec fn view(&self) -> Map<u32, Seq<u8>> {
        account_entries(*self)
    }
}

impl AccountMap {
    /// Relies on ink_storage's `HashMap::new`: a fresh map has no entries.
    #[verifier::external_body]
    pub(crate) fn new() -> (r: AccountMap)
        ensures
            account_entries(r) =~= Map::empty(),
    {
        AccountMap { inner: ink_storage::collections::HashMap::new() }
    }

    /// Relies on ink_storage's `HashMap::insert`: the key maps to the new
    /// value afterwards, whether or not it was present, and no other entry
    /// changes.
    #[verifier::external_body]
    pub(crate) fn insert(&mut self, key: u32, value: [u8; 32])
        ensures
            account_entries(*final(self)) == account_entries(*old(self)).insert(key, value@),
    {
        self.inner.insert(key, value);
    }

    /// Relies on ink_storage's `HashMap::get`: the value stored under the key,
    /// if any.
    #[verifier::external_body]
    pub(crate) fn get(&self, key: u32) -> (r: Option<[u8; 32]>)
        ensures
            match r {
                Some(b) => account_entries(*self).contains_key(key) && b@ == account_entries(
                    *self,
                )[key],
                None => !account_entries(*self).contains_key(key),
            },
    {
        self.inner.get(&key).copied()
    }
}

/// An append-only list of ids, in an `ink_storage` vector.
#[verifier::external_body]
pub struct IdList {
    inner: ink_storage::collections::Vec<u32>,
}

/// The items of an `IdList`, in order.
pub uninterp spec fn id_items(v: IdList) -> Seq<u32>;

impl View for IdList {
    type V = Seq<u32>;

    open spec fn view(&self) -> Seq<u32> {
        id_items(*self)
    }
}

impl IdList {
    /// Relies on ink_storage's `Vec::new`: a fresh vector is empty.
    #[verifier::external_body]
    pub(crate) fn new() -> (r: IdList)
        ensures
            id_items(r) == Seq::<u32>::empty(),
    {
        IdList { inner: ink_storage::collections::Vec::new() }
    }

    /// Relies on ink_storage's `Vec::push`: appends one item at the back. It
    /// panics once the length has reached `u32::MAX`, which `requires` rules
    /// out.
    #[verifier::external_body]
    pub(crate) fn push(&mut self, value: u32)
        requires
            id_items(*old(self)).len() < u32::MAX,
        ensures
            id_items(*final(self)) == id_items(*old(self)).push(value),
    {
        self.inner.push(value);
    }
}

} // verus!
