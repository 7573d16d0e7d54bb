use vstd::prelude::*;

use dashmap::DashMap;

verus! {

#[verifier::external_type_specification]
#[verifier::external_body]
#[verifier::reject_recursive_types(K)]
#[verifier::reject_recursive_types(V)]
#[verifier::reject_recursive_types(S)]
pub struct ExDashMap<K, V, S>(DashMap<K, V, S>);

/// What a map from session key to reference credential holds.
pub uninterp spec fn cache_entries(m: DashMap<String, String>) -> Map<Seq<char>, Seq<char>>;

/// Relies on `DashMap::new`: the new map holds no entries.
#[verifier::external_body]
fn new_map() -> (r: DashMap<String, String>)
    ensures
        forall|k: Seq<char>| !#[trigger] cache_entries(r).contains_key(k),
{
    DashMap::new()
}

/// Relies on `DashMap::get`: a copy of the value stored under `key`, if any.
#[verifier::external_body]
fn map_get(m: &DashMap<String, String>, key: &str) -> (r: Option<String>)
    ensures
        match r {
            Some(v) => cache_entries(*m).contains_key(key@) && cache_entries(*m)[key@] == v@,
            None => !cache_entries(*m).contains_key(key@),
        },
{
    m.get(key).map(|e| e.value().clone())
}

/// Relies on `DashMap::insert`: the entry for `key` is set to `value`,
/// replacing any earlier one; no other entry changes.
#[verifier::external_body]
fn map_insert(m: &mut DashMap<String, String>, key: String, value: String)
    ensures
        cache_entries(*final(m)) == cache_entries(*old(m)).insert(key@, value@),
{
    m.insert(key, value);
}

/// Per-session cache of reference credentials: at most one entry per session
/// key, the last write wins, and nothing expires.
pub struct CmsTokenCache {
    map: DashMap<String, String>,
}

impl View for CmsTokenCache {
    type V = Map<Seq<char>, Seq<char>>;

    closed spec fn view(&self) -> Map<Seq<char>, Seq<char>> {
        cache_entries(self.map)
    }
}

impl CmsTokenCache {
    /// An empty cache.
    pub fn new() -> (r: Self)
        ensures
            forall|k: Seq<char>| !#[trigger] r@.contains_key(k),
    {
        CmsTokenCache { map: new_map() }
    }

    /// The reference credential cached for `session`, if any.
    pub fn get(&self, session: &str) -> (r: Option<String>)
        ensures
            match r {
                Some(v) => self@.contains_key(session@) && self@[session@] == v@,
                None => !self@.contains_key(session@),
            },
    {
        map_get(&self.map, session)
    }

    /// Stores `value` for `session`, overwriting any earlier entry.
    pub fn put(&mut self, session: String, value: String)
        ensures
            final(self)@ == old(self)@.insert(session@, value@),
    {
        map_insert(&mut self.map, session, value);
    }
}

} // verus!
