//! The store of credential keys, one per username.

use vstd::hash_map::StringHashMap;
use vstd::prelude::*;

verus! {

/// Maps each username to the key derived from its password. A username has
/// at most one key: the one inserted last.
pub struct CredentialStore {
    entries: StringHashMap<Vec<u8>>,
}

impl View for CredentialStore {
    type V = Map<Seq<char>, Seq<u8>>;

    closed spec fn view(&self) -> Map<Seq<char>, Seq<u8>> {
        self.entries@.map_values(|key: Vec<u8>| key@)
    }
}

impl CredentialStore {
    /// The store without any user.
    pub fn new() -> (store: CredentialStore)
        ensures
            store@ == Map::<Seq<char>, Seq<u8>>::empty(),
    {
        let store = CredentialStore { entries: StringHashMap::new() };
        assert(store@ =~= Map::<Seq<char>, Seq<u8>>::empty());
        store
    }

    /// Gives `username` the key `key`, in place of any key it had.
    pub fn insert(&mut self, username: String, key: Vec<u8>)
        ensures
            final(self)@ == old(self)@.insert(username@, key@),
    {
        self.entries.insert(username, key);
        assert(self@ =~= old(self)@.insert(username@, key@));
    }

    /// The key of `username`, if it has one.
    pub fn lookup(&self, username: &str) -> (key: Option<Vec<u8>>)
        ensures
            key_view(key) == spec_lookup(self@, username@),
    {
        match self.entries.get(username) {
            Some(key) => Some(key.clone()),
            None => None,
        }
    }

    /// Whether `username` has a key.
    pub fn contains(&self, username: &str) -> (found: bool)
        ensures
            found == self@.contains_key(username@),
    {
        self.entries.contains_key(username)
    }

    /// How many users have a key.
    pub fn len(&self) -> (n: usize)
        ensures
            n == self@.len(),
    {
        proof {
            self.lemma_same_domain();
        }
        self.entries.len()
    }

    proof fn lemma_same_domain(&self)
        ensures
            self@.dom() == self.entries@.dom(),
    {
        assert(self@.dom() =~= self.entries@.dom());
    }
}

/// A key that may be absent, as the bytes it holds.
pub open spec fn key_view(key: Option<Vec<u8>>) -> Option<Seq<u8>> {
    match key {
        Some(k) => Some(k@),
        None => None,
    }
}

/// What `lookup` returns on a store: the key of the username, where it has
/// one.
pub open spec fn spec_lookup(store: Map<Seq<char>, Seq<u8>>, username: Seq<char>) -> Option<
    Seq<u8>,
> {
    if store.contains_key(username) {
        Some(store[username])
    } else {
        None
    }
}

/// After two insertions for one username, the store is as if only the
/// second had been made: the username has the second key, and no trace of
/// the first is left.
pub proof fn lemma_insert_overwrites(
    store: Map<Seq<char>, Seq<u8>>,
    username: Seq<char>,
    first: Seq<u8>,
    second: Seq<u8>,
)
    ensures
        store.insert(username, first).insert(username, second) == store.insert(username, second),
        spec_lookup(store.insert(username, first).insert(username, second), username) == Some(
            second,
        ),
{
    assert(store.insert(username, first).insert(username, second) =~= store.insert(
        username,
        second,
    ));
}

/// An insertion changes the key of no other username.
pub proof fn lemma_insert_keeps_others(
    store: Map<Seq<char>, Seq<u8>>,
    username: Seq<char>,
    key: Seq<u8>,
    other: Seq<char>,
)
    requires
        other != username,
    ensures
        spec_lookup(store.insert(username, key), other) == spec_lookup(store, other),
{
}

} // verus!
