//! The attribute store: a persistent mapping from (owner, storage key) to an
//! attribute record, and a separate mapping from (owner, name) to a nonce
//! counter. Both are kept as duplicate-free entry lists and modelled by total
//! lookup functions; every operation states exactly which lookups it changes.

use vstd::prelude::*;
use crate::attribute::{Attribute, AttributeView};
use crate::bytes::{bytes_eq, clone_bytes};

verus! {

/// One stored attribute record, filed under its owner and derived key.
pub struct AttributeEntry {
    pub owner: Vec<u8>,
    pub key: Vec<u8>,
    pub attribute: Attribute,
}

/// One nonce counter, filed under its owner and attribute name.
pub struct NonceEntry {
    pub owner: Vec<u8>,
    pub name: Vec<u8>,
    pub nonce: u64,
}

/// Whether an entry is filed under (owner, key).
pub open spec fn entry_matches(e: AttributeEntry, owner: Seq<u8>, key: Seq<u8>) -> bool {
    e.owner@ == owner && e.key@ == key
}

/// At most one record per (owner, key).
pub open spec fn attr_entries_distinct(s: Seq<AttributeEntry>) -> bool {
    forall|i: int, j: int| #![trigger s[i], s[j]]
        0 <= i < j < s.len() ==> !(s[i].owner@ == s[j].owner@ && s[i].key@ == s[j].key@)
}

/// Whether some entry is filed under (owner, key).
pub open spec fn has_attr(s: Seq<AttributeEntry>, owner: Seq<u8>, key: Seq<u8>) -> bool {
    exists|i: int| 0 <= i < s.len() && entry_matches(#[trigger] s[i], owner, key)
}

/// The index of the entry filed under (owner, key), when one exists.
pub open spec fn attr_index_of(s: Seq<AttributeEntry>, owner: Seq<u8>, key: Seq<u8>) -> int {
    choose|i: int| 0 <= i < s.len() && entry_matches(#[trigger] s[i], owner, key)
}

/// The record filed under (owner, key), if any.
pub open spec fn find_attr(s: Seq<AttributeEntry>, owner: Seq<u8>, key: Seq<u8>) -> Option<
    AttributeView,
> {
    if has_attr(s, owner, key) {
        Some(s[attr_index_of(s, owner, key)].attribute@)
    } else {
        None
    }
}

/// Whether a counter is filed under (owner, name).
pub open spec fn nonce_matches(e: NonceEntry, owner: Seq<u8>, name: Seq<u8>) -> bool {
    e.owner@ == owner && e.name@ == name
}

/// At most one counter per (owner, name).
pub open spec fn nonce_entries_distinct(s: Seq<NonceEntry>) -> bool {
    forall|i: int, j: int| #![trigger s[i], s[j]]
        0 <= i < j < s.len() ==> !(s[i].owner@ == s[j].owner@ && s[i].name@ == s[j].name@)
}

/// Whether some counter is filed under (owner, name).
pub open spec fn has_nonce(s: Seq<NonceEntry>, owner: Seq<u8>, name: Seq<u8>) -> bool {
    exists|i: int| 0 <= i < s.len() && nonce_matches(#[trigger] s[i], owner, name)
}

/// The index of the counter filed under (owner, name), when one exists.
pub open spec fn nonce_index_of(s: Seq<NonceEntry>, owner: Seq<u8>, name: Seq<u8>) -> int {
    choose|i: int| 0 <= i < s.len() && nonce_matches(#[trigger] s[i], owner, name)
}

/// The counter of (owner, name): 0 when never set.
pub open spec fn find_nonce(s: Seq<NonceEntry>, owner: Seq<u8>, name: Seq<u8>) -> u64 {
    if has_nonce(s, owner, name) {
        s[nonce_index_of(s, owner, name)].nonce
    } else {
        0
    }
}

/// In a duplicate-free entry list, the lookup of an entry's own (owner, key)
/// finds exactly that entry.
proof fn lemma_attr_at_index(s: Seq<AttributeEntry>, i: int)
    requires
        attr_entries_distinct(s),
        0 <= i < s.len(),
    ensures
        find_attr(s, s[i].owner@, s[i].key@) == Some(s[i].attribute@),
{
    let o = s[i].owner@;
    let k = s[i].key@;
    assert(entry_matches(s[i], o, k));
    assert(has_attr(s, o, k));
    let j = attr_index_of(s, o, k);
    assert(0 <= j < s.len() && entry_matches(s[j], o, k));
    if j < i {
        assert(!(s[j].owner@ == s[i].owner@ && s[j].key@ == s[i].key@));
        assert(false);
    } else if i < j {
        assert(!(s[i].owner@ == s[j].owner@ && s[i].key@ == s[j].key@));
        assert(false);
    }
}

/// Replacing the entry at `i` by one filed under the same (owner, key) leaves
/// every other lookup unchanged.
proof fn lemma_attr_update(s: Seq<AttributeEntry>, i: int, e: AttributeEntry)
    requires
        attr_entries_distinct(s),
        0 <= i < s.len(),
        s[i].owner@ == e.owner@,
        s[i].key@ == e.key@,
    ensures
        attr_entries_distinct(s.update(i, e)),
        forall|o: Seq<u8>, k: Seq<u8>| #[trigger] find_attr(s.update(i, e), o, k) == (if o
            == e.owner@ && k == e.key@ {
            Some(e.attribute@)
        } else {
            find_attr(s, o, k)
        }),
{
    let t = s.update(i, e);
    assert forall|a: int, b: int| #![trigger t[a], t[b]] 0 <= a < b < t.len() implies !(t[a].owner@
        == t[b].owner@ && t[a].key@ == t[b].key@) by {
        assert(!(s[a].owner@ == s[b].owner@ && s[a].key@ == s[b].key@));
        assert(t[a].owner@ == s[a].owner@ && t[a].key@ == s[a].key@);
        assert(t[b].owner@ == s[b].owner@ && t[b].key@ == s[b].key@);
    }
    assert forall|o: Seq<u8>, k: Seq<u8>| #[trigger] find_attr(t, o, k) == (if o == e.owner@ && k
        == e.key@ {
        Some(e.attribute@)
    } else {
        find_attr(s, o, k)
    }) by {
        if o == e.owner@ && k == e.key@ {
            assert(t[i] == e);
            lemma_attr_at_index(t, i);
        } else {
            if has_attr(s, o, k) {
                let j = attr_index_of(s, o, k);
                assert(0 <= j < s.len() && entry_matches(s[j], o, k));
                assert(j != i);
                assert(entry_matches(t[j], o, k));
                lemma_attr_at_index(t, j);
                lemma_attr_at_index(s, j);
            } else {
                assert forall|j: int| 0 <= j < t.len() implies !entry_matches(t[j], o, k) by {
                    if j != i {
                        assert(t[j] == s[j]);
                        assert(!entry_matches(s[j], o, k));
                    }
                }
                assert(!has_attr(t, o, k));
            }
        }
    }
}

/// Appending an entry filed under a fresh (owner, key) leaves every other
/// lookup unchanged.
proof fn lemma_attr_push(s: Seq<AttributeEntry>, e: AttributeEntry)
    requires
        attr_entries_distinct(s),
        forall|j: int| 0 <= j < s.len() ==> !entry_matches(#[trigger] s[j], e.owner@, e.key@),
    ensures
        attr_entries_distinct(s.push(e)),
        forall|o: Seq<u8>, k: Seq<u8>| #[trigger] find_attr(s.push(e), o, k) == (if o == e.owner@
            && k == e.key@ {
            Some(e.attribute@)
        } else {
            find_attr(s, o, k)
        }),
{
    let t = s.push(e);
    assert(t.len() == s.len() + 1);
    assert(t[s.len() as int] == e);
    assert forall|a: int, b: int| #![trigger t[a], t[b]] 0 <= a < b < t.len() implies !(t[a].owner@
        == t[b].owner@ && t[a].key@ == t[b].key@) by {
        if b == s.len() {
            assert(t[a] == s[a]);
            assert(!entry_matches(s[a], e.owner@, e.key@));
        } else {
            assert(t[a] == s[a]);
            assert(t[b] == s[b]);
            assert(!(s[a].owner@ == s[b].owner@ && s[a].key@ == s[b].key@));
        }
    }
    assert forall|o: Seq<u8>, k: Seq<u8>| #[trigger] find_attr(t, o, k) == (if o == e.owner@ && k
        == e.key@ {
        Some(e.attribute@)
    } else {
        find_attr(s, o, k)
    }) by {
        if o == e.owner@ && k == e.key@ {
            lemma_attr_at_index(t, s.len() as int);
        } else {
            if has_attr(s, o, k) {
                let j = attr_index_of(s, o, k);
                assert(0 <= j < s.len() && entry_matches(s[j], o, k));
                assert(entry_matches(t[j], o, k));
                lemma_attr_at_index(t, j);
                lemma_attr_at_index(s, j);
            } else {
                assert forall|j: int| 0 <= j < t.len() implies !entry_matches(t[j], o, k) by {
                    if j < s.len() {
                        assert(t[j] == s[j]);
                        assert(!entry_matches(s[j], o, k));
                    } else {
                        assert(t[j] == e);
                    }
                }
                assert(!has_attr(t, o, k));
            }
        }
    }
}

/// Removing the entry at `i` empties its (owner, key) and leaves every other
/// lookup unchanged.
proof fn lemma_attr_remove(s: Seq<AttributeEntry>, i: int)
    requires
        attr_entries_distinct(s),
        0 <= i < s.len(),
    ensures
        attr_entries_distinct(s.remove(i)),
        forall|o: Seq<u8>, k: Seq<u8>| #[trigger] find_attr(s.remove(i), o, k) == (if o
            == s[i].owner@ && k == s[i].key@ {
            None::<AttributeView>
        } else {
            find_attr(s, o, k)
        }),
{
    let t = s.remove(i);
    s.remove_ensures(i);
    assert forall|j: int| 0 <= j < t.len() implies t[j] == (if j < i {
        s[j]
    } else {
        s[j + 1]
    }) by {}
    assert forall|a: int, b: int| #![trigger t[a], t[b]] 0 <= a < b < t.len() implies !(t[a].owner@
        == t[b].owner@ && t[a].key@ == t[b].key@) by {
        let a0 = if a < i { a } else { a + 1 };
        let b0 = if b < i { b } else { b + 1 };
        assert(t[a] == s[a0]);
        assert(t[b] == s[b0]);
        assert(!(s[a0].owner@ == s[b0].owner@ && s[a0].key@ == s[b0].key@));
    }
    assert forall|o: Seq<u8>, k: Seq<u8>| #[trigger] find_attr(t, o, k) == (if o == s[i].owner@ && k
        == s[i].key@ {
        None::<AttributeView>
    } else {
        find_attr(s, o, k)
    }) by {
        if o == s[i].owner@ && k == s[i].key@ {
            assert forall|j: int| 0 <= j < t.len() implies !entry_matches(t[j], o, k) by {
                let j0 = if j < i { j } else { j + 1 };
                assert(t[j] == s[j0]);
                if j0 < i {
                    assert(!(s[j0].owner@ == s[i].owner@ && s[j0].key@ == s[i].key@));
                } else {
                    assert(!(s[i].owner@ == s[j0].owner@ && s[i].key@ == s[j0].key@));
                }
            }
            assert(!has_attr(t, o, k));
        } else {
            if has_attr(s, o, k) {
                let j = attr_index_of(s, o, k);
                assert(0 <= j < s.len() && entry_matches(s[j], o, k));
                assert(j != i);
                let j1 = if j < i { j } else { j - 1 };
                assert(t[j1] == s[j]);
                assert(entry_matches(t[j1], o, k));
                lemma_attr_at_index(t, j1);
                lemma_attr_at_index(s, j);
            } else {
                assert forall|j: int| 0 <= j < t.len() implies !entry_matches(t[j], o, k) by {
                    let j0 = if j < i { j } else { j + 1 };
                    assert(t[j] == s[j0]);
                    assert(!entry_matches(s[j0], o, k));
                }
                assert(!has_attr(t, o, k));
            }
        }
    }
}

/// The nonce analogue of `lemma_attr_at_index`.
proof fn lemma_nonce_at_index(s: Seq<NonceEntry>, i: int)
    requires
        nonce_entries_distinct(s),
        0 <= i < s.len(),
    ensures
        find_nonce(s, s[i].owner@, s[i].name@) == s[i].nonce,
{
    let o = s[i].owner@;
    let n = s[i].name@;
    assert(nonce_matches(s[i], o, n));
    assert(has_nonce(s, o, n));
    let j = nonce_index_of(s, o, n);
    assert(0 <= j < s.len() && nonce_matches(s[j], o, n));
    if j < i {
        assert(!(s[j].owner@ == s[i].owner@ && s[j].name@ == s[i].name@));
        assert(false);
    } else if i < j {
        assert(!(s[i].owner@ == s[j].owner@ && s[i].name@ == s[j].name@));
        assert(false);
    }
}

/// The nonce analogue of `lemma_attr_update`.
proof fn lemma_nonce_update(s: Seq<NonceEntry>, i: int, e: NonceEntry)
    requires
        nonce_entries_distinct(s),
        0 <= i < s.len(),
        s[i].owner@ == e.owner@,
        s[i].name@ == e.name@,
    ensures
        nonce_entries_distinct(s.update(i, e)),
        forall|o: Seq<u8>, n: Seq<u8>| #[trigger] find_nonce(s.update(i, e), o, n) == (if o
            == e.owner@ && n == e.name@ {
            e.nonce
        } else {
            find_nonce(s, o, n)
        }),
{
    let t = s.update(i, e);
    assert forall|a: int, b: int| #![trigger t[a], t[b]] 0 <= a < b < t.len() implies !(t[a].owner@
        == t[b].owner@ && t[a].name@ == t[b].name@) by {
        assert(!(s[a].owner@ == s[b].owner@ && s[a].name@ == s[b].name@));
        assert(t[a].owner@ == s[a].owner@ && t[a].name@ == s[a].name@);
        assert(t[b].owner@ == s[b].owner@ && t[b].name@ == s[b].name@);
    }
    assert forall|o: Seq<u8>, n: Seq<u8>| #[trigger] find_nonce(t, o, n) == (if o == e.owner@ && n
        == e.name@ {
        e.nonce
    } else {
        find_nonce(s, o, n)
    }) by {
        if o == e.owner@ && n == e.name@ {
            assert(t[i] == e);
            lemma_nonce_at_index(t, i);
        } else {
            if has_nonce(s, o, n) {
                let j = nonce_index_of(s, o, n);
                assert(0 <= j < s.len() && nonce_matches(s[j], o, n));
                assert(j != i);
                assert(nonce_matches(t[j], o, n));
                lemma_nonce_at_index(t, j);
                lemma_nonce_at_index(s, j);
            } else {
                assert forall|j: int| 0 <= j < t.len() implies !nonce_matches(t[j], o, n) by {
                    if j != i {
                        assert(t[j] == s[j]);
                        assert(!nonce_matches(s[j], o, n));
                    }
                }
                assert(!has_nonce(t, o, n));
            }
        }
    }
}

/// The nonce analogue of `lemma_attr_push`.
proof fn lemma_nonce_push(s: Seq<NonceEntry>, e: NonceEntry)
    requires
        nonce_entries_distinct(s),
        forall|j: int| 0 <= j < s.len() ==> !nonce_matches(#[trigger] s[j], e.owner@, e.name@),
    ensures
        nonce_entries_distinct(s.push(e)),
        forall|o: Seq<u8>, n: Seq<u8>| #[trigger] find_nonce(s.push(e), o, n) == (if o == e.owner@
            && n == e.name@ {
            e.nonce
        } else {
            find_nonce(s, o, n)
        }),
{
    let t = s.push(e);
    assert(t[s.len() as int] == e);
    assert forall|a: int, b: int| #![trigger t[a], t[b]] 0 <= a < b < t.len() implies !(t[a].owner@
        == t[b].owner@ && t[a].name@ == t[b].name@) by {
        if b == s.len() {
            assert(t[a] == s[a]);
            assert(!nonce_matches(s[a], e.owner@, e.name@));
        } else {
            assert(t[a] == s[a]);
            assert(t[b] == s[b]);
            assert(!(s[a].owner@ == s[b].owner@ && s[a].name@ == s[b].name@));
        }
    }
    assert forall|o: Seq<u8>, n: Seq<u8>| #[trigger] find_nonce(t, o, n) == (if o == e.owner@ && n
        == e.name@ {
        e.nonce
    } else {
        find_nonce(s, o, n)
    }) by {
        if o == e.owner@ && n == e.name@ {
            lemma_nonce_at_index(t, s.len() as int);
        } else {
            if has_nonce(s, o, n) {
                let j = nonce_index_of(s, o, n);
                assert(0 <= j < s.len() && nonce_matches(s[j], o, n));
                assert(nonce_matches(t[j], o, n));
                lemma_nonce_at_index(t, j);
                lemma_nonce_at_index(s, j);
            } else {
                assert forall|j: int| 0 <= j < t.len() implies !nonce_matches(t[j], o, n) by {
                    if j < s.len() {
                        assert(t[j] == s[j]);
                        assert(!nonce_matches(s[j], o, n));
                    } else {
                        assert(t[j] == e);
                    }
                }
                assert(!has_nonce(t, o, n));
            }
        }
    }
}

/// The index of the entry filed under (owner, key), by linear scan.
fn find_attr_index(s: &Vec<AttributeEntry>, owner: &Vec<u8>, key: &Vec<u8>) -> (r: Option<usize>)
    ensures
        match r {
            Some(i) => 0 <= i < s@.len() && entry_matches(s@[i as int], owner@, key@),
            None => !has_attr(s@, owner@, key@),
        },
{
    let mut i: usize = 0;
    while i < s.len()
        invariant
            i <= s@.len(),
            forall|j: int| 0 <= j < i ==> !entry_matches(#[trigger] s@[j], owner@, key@),
        decreases s@.len() - i,
    {
        let e = &s[i];
        if bytes_eq(&e.owner, owner) && bytes_eq(&e.key, key) {
            return Some(i);
        }
        i += 1;
    }
    None
}

/// The index of the counter filed under (owner, name), by linear scan.
fn find_nonce_index(s: &Vec<NonceEntry>, owner: &Vec<u8>, name: &Vec<u8>) -> (r: Option<usize>)
    ensures
        match r {
            Some(i) => 0 <= i < s@.len() && nonce_matches(s@[i as int], owner@, name@),
            None => !has_nonce(s@, owner@, name@),
        },
{
    let mut i: usize = 0;
    while i < s.len()
        invariant
            i <= s@.len(),
            forall|j: int| 0 <= j < i ==> !nonce_matches(#[trigger] s@[j], owner@, name@),
        decreases s@.len() - i,
    {
        let e = &s[i];
        if bytes_eq(&e.owner, owner) && bytes_eq(&e.name, name) {
            return Some(i);
        }
        i += 1;
    }
    None
}

/// The attribute registry: every record an owner has attached, and every
/// nonce counter, backed by host storage that is infallible within one call.
pub struct AttributeRegistry {
    attributes: Vec<AttributeEntry>,
    nonces: Vec<NonceEntry>,
}

impl AttributeRegistry {
    /// Well-formedness: at most one record per (owner, key) and at most one
    /// counter per (owner, name). Constructors establish it; every operation
    /// preserves it.
    pub closed spec fn wf(self) -> bool {
        attr_entries_distinct(self.attributes@) && nonce_entries_distinct(self.nonces@)
    }

    /// The record stored under (owner, key), if any.
    pub closed spec fn attr_at(self, owner: Seq<u8>, key: Seq<u8>) -> Option<AttributeView> {
        find_attr(self.attributes@, owner, key)
    }

    /// The nonce counter of (owner, name): 0 when never set.
    pub closed spec fn nonce_of(self, owner: Seq<u8>, name: Seq<u8>) -> u64 {
        find_nonce(self.nonces@, owner, name)
    }

    /// An empty registry.
    pub fn new() -> (r: AttributeRegistry)
        ensures
            r.wf(),
            forall|o: Seq<u8>, k: Seq<u8>| (#[trigger] r.attr_at(o, k)) is None,
            forall|o: Seq<u8>, n: Seq<u8>| (#[trigger] r.nonce_of(o, n)) == 0,
    {
        let r = AttributeRegistry { attributes: Vec::new(), nonces: Vec::new() };
        proof {
            assert forall|o: Seq<u8>, k: Seq<u8>| (#[trigger] r.attr_at(o, k)) is None by {
                assert(!has_attr(r.attributes@, o, k));
            }
            assert forall|o: Seq<u8>, n: Seq<u8>| (#[trigger] r.nonce_of(o, n)) == 0 by {
                assert(!has_nonce(r.nonces@, o, n));
            }
        }
        r
    }

    /// The current counter of (owner, name), 0 if never set.
    pub fn get_nonce(&self, owner: &Vec<u8>, name: &Vec<u8>) -> (r: u64)
        requires
            self.wf(),
        ensures
            r == self.nonce_of(owner@, name@),
    {
        match find_nonce_index(&self.nonces, owner, name) {
            Some(i) => {
                proof {
                    lemma_nonce_at_index(self.nonces@, i as int);
                }
                self.nonces[i].nonce
            },
            None => 0,
        }
    }

    /// Advances the counter of (owner, name) by one, rotating the storage key
    /// every later operation on that name derives. The lifecycle operations
    /// never call this: it is a capability the store exposes to its host.
    pub fn advance_nonce(&mut self, owner: &Vec<u8>, name: &Vec<u8>)
        requires
            old(self).wf(),
            old(self).nonce_of(owner@, name@) < u64::MAX,
        ensures
            final(self).wf(),
            forall|o: Seq<u8>, n: Seq<u8>| #[trigger] final(self).nonce_of(o, n) == (if o == owner@
                && n == name@ {
                (old(self).nonce_of(owner@, name@) + 1) as u64
            } else {
                old(self).nonce_of(o, n)
            }),
            forall|o: Seq<u8>, k: Seq<u8>| #[trigger] final(self).attr_at(o, k) == old(
                self,
            ).attr_at(o, k),
    {
        match find_nonce_index(&self.nonces, owner, name) {
            Some(i) => {
                proof {
                    lemma_nonce_at_index(self.nonces@, i as int);
                }
                let current = self.nonces[i].nonce;
                let entry = NonceEntry {
                    owner: clone_bytes(owner),
                    name: clone_bytes(name),
                    nonce: current + 1,
                };
                proof {
                    lemma_nonce_update(self.nonces@, i as int, entry);
                }
                self.nonces[i] = entry;
            },
            None => {
                let entry = NonceEntry {
                    owner: clone_bytes(owner),
                    name: clone_bytes(name),
                    nonce: 1,
                };
                proof {
                    assert forall|j: int|
                        0 <= j < self.nonces@.len() implies !nonce_matches(
                        #[trigger] self.nonces@[j],
                        entry.owner@,
                        entry.name@,
                    ) by {
                        assert(!nonce_matches(self.nonces@[j], owner@, name@));
                    }
                    lemma_nonce_push(self.nonces@, entry);
                }
                self.nonces.push(entry);
            },
        }
    }

    /// Whether a record is stored under (owner, key).
    pub fn contains(&self, owner: &Vec<u8>, key: &Vec<u8>) -> (r: bool)
        ensures
            r == (self.attr_at(owner@, key@) is Some),
    {
        match find_attr_index(&self.attributes, owner, key) {
            Some(i) => {
                proof {
                    assert(entry_matches(self.attributes@[i as int], owner@, key@));
                    assert(has_attr(self.attributes@, owner@, key@));
                }
                true
            },
            None => false,
        }
    }

    /// The record stored under (owner, key), if any, as a copy.
    pub fn fetch(&self, owner: &Vec<u8>, key: &Vec<u8>) -> (r: Option<Attribute>)
        requires
            self.wf(),
        ensures
            match r {
                Some(a) => self.attr_at(owner@, key@) == Some(a@),
                None => self.attr_at(owner@, key@) is None,
            },
    {
        match find_attr_index(&self.attributes, owner, key) {
            Some(i) => {
                proof {
                    lemma_attr_at_index(self.attributes@, i as int);
                }
                let e = &self.attributes[i];
                Some(e.attribute.clone_record())
            },
            None => None,
        }
    }

    /// Unconditional upsert: stores `attribute` under (owner, key),
    /// overwriting any record already there; no other lookup changes.
    pub fn insert(&mut self, owner: &Vec<u8>, key: &Vec<u8>, attribute: Attribute)
        requires
            old(self).wf(),
        ensures
            final(self).wf(),
            forall|o: Seq<u8>, k: Seq<u8>| #[trigger] final(self).attr_at(o, k) == (if o == owner@
                && k == key@ {
                Some(attribute@)
            } else {
                old(self).attr_at(o, k)
            }),
            forall|o: Seq<u8>, n: Seq<u8>| #[trigger] final(self).nonce_of(o, n) == old(
                self,
            ).nonce_of(o, n),
    {
        let entry = AttributeEntry { owner: clone_bytes(owner), key: clone_bytes(key), attribute };
        match find_attr_index(&self.attributes, owner, key) {
            Some(i) => {
                proof {
                    lemma_attr_update(self.attributes@, i as int, entry);
                }
                self.attributes[i] = entry;
            },
            None => {
                proof {
                    assert forall|j: int|
                        0 <= j < self.attributes@.len() implies !entry_matches(
                        #[trigger] self.attributes@[j],
                        entry.owner@,
                        entry.key@,
                    ) by {
                        assert(!entry_matches(self.attributes@[j], owner@, key@));
                    }
                    lemma_attr_push(self.attributes@, entry);
                }
                self.attributes.push(entry);
            },
        }
    }

    /// Removes the record under (owner, key), if any; no other lookup
    /// changes.
    pub fn remove(&mut self, owner: &Vec<u8>, key: &Vec<u8>)
        requires
            old(self).wf(),
        ensures
            final(self).wf(),
            forall|o: Seq<u8>, k: Seq<u8>| #[trigger] final(self).attr_at(o, k) == (if o == owner@
                && k == key@ {
                None::<AttributeView>
            } else {
                old(self).attr_at(o, k)
            }),
            forall|o: Seq<u8>, n: Seq<u8>| #[trigger] final(self).nonce_of(o, n) == old(
                self,
            ).nonce_of(o, n),
    {
        match find_attr_index(&self.attributes, owner, key) {
            Some(i) => {
                proof {
                    lemma_attr_remove(self.attributes@, i as int);
                }
                self.attributes.remove(i);
            },
            None => {},
        }
    }
}

} // verus!
