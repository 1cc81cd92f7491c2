use vstd::prelude::*;
use crate::kind::EcdsaStruct;

verus! {

/// Where an artifact lives: customer, session, kind.
pub type ArtifactKey = (Seq<char>, Seq<char>, EcdsaStruct);

/// The abstract contents of a store: each key holds the serialized value
/// written last under it.
pub type Contents = Map<ArtifactKey, Seq<u8>>;

/// Whether `m` holds every kind of `ks` for session `id` of `customer`.
pub open spec fn has_all(m: Contents, customer: Seq<char>, id: Seq<char>, ks: Seq<EcdsaStruct>) -> bool {
    forall|i: int| 0 <= i < ks.len() ==> #[trigger] m.contains_key((customer, id, ks[i]))
}

/// Whether some customer holds an artifact under session `id`.
pub open spec fn session_used(m: Contents, id: Seq<char>) -> bool {
    exists|c: Seq<char>, k: EcdsaStruct| #[trigger] m.contains_key((c, id, k))
}

/// What a read of `key` gives on contents `m`.
pub open spec fn lookup(m: Contents, key: ArtifactKey) -> Option<Seq<u8>> {
    if m.contains_key(key) {
        Some(m[key])
    } else {
        None
    }
}

/// Reading a key right after writing a value under it gives that value back.
pub proof fn lemma_get_after_insert(m: Contents, key: ArtifactKey, v: Seq<u8>)
    ensures
        lookup(m.insert(key, v), key) == Some(v),
{
}

struct Record {
    customer: String,
    session: String,
    kind: EcdsaStruct,
    value: Vec<u8>,
}

impl Record {
    spec fn key(&self) -> ArtifactKey {
        (self.customer@, self.session@, self.kind)
    }
}

/// Returns a copy of `v`.
fn copy_bytes(v: &Vec<u8>) -> (r: Vec<u8>)
    ensures
        r@ == v@,
{
    let r = v.clone();
    assert(r@ =~= v@);
    r
}

/// The embedded artifact store: one record per key, overwritten on a
/// second write.
pub struct Store {
    records: Vec<Record>,
    contents: Ghost<Contents>,
}

impl View for Store {
    type V = Contents;

    closed spec fn view(&self) -> Contents {
        self.contents@
    }
}

impl Store {
    /// The records agree with the contents, one record per key.
    pub closed spec fn wf(&self) -> bool {
        &&& forall|i: int|
            0 <= i < self.records.len() ==> self.contents@.contains_key(#[trigger] self.records[i].key())
                && self.contents@[self.records[i].key()] == self.records[i].value@
        &&& forall|k: ArtifactKey| #[trigger]
            self.contents@.contains_key(k) ==> exists|i: int|
                0 <= i < self.records.len() && #[trigger] self.records[i].key() == k
        &&& forall|i: int, j: int|
            0 <= i < j < self.records.len() ==> #[trigger] self.records[i].key()
                != #[trigger] self.records[j].key()
    }

    /// An empty store.
    pub fn new() -> (r: Store)
        ensures
            r.wf(),
            r@ == Contents::empty(),
    {
        Store { records: Vec::new(), contents: Ghost(Map::empty()) }
    }

    fn find(&self, customer: &String, id: &String, kind: EcdsaStruct) -> (r: Option<usize>)
        requires
            self.wf(),
        ensures
            r matches Some(i) ==> i < self.records.len() && self.records[i as int].key() == (
            customer@,
            id@,
            kind,
            ),
            r is None ==> !self@.contains_key((customer@, id@, kind)),
    {
        let mut i: usize = 0;
        while i < self.records.len()
            invariant
                self.wf(),
                i <= self.records.len(),
                forall|j: int| 0 <= j < i ==> #[trigger] self.records[j].key() != (customer@, id@, kind),
            decreases self.records.len() - i,
        {
            let rec = &self.records[i];
            if rec.kind == kind && rec.session == *id && rec.customer == *customer {
                return Some(i);
            }
            i = i + 1;
        }
        None
    }

    /// Whether an artifact is stored under the key.
    pub fn contains(&self, customer: &String, id: &String, kind: EcdsaStruct) -> (r: bool)
        requires
            self.wf(),
        ensures
            r == self@.contains_key((customer@, id@, kind)),
    {
        self.find(customer, id, kind).is_some()
    }

    /// The value stored under the key, if any.
    pub fn get(&self, customer: &String, id: &String, kind: EcdsaStruct) -> (r: Option<Vec<u8>>)
        requires
            self.wf(),
        ensures
            r matches Some(v) ==> lookup(self@, (customer@, id@, kind)) == Some(v@),
            r is None ==> lookup(self@, (customer@, id@, kind)) is None,
    {
        match self.find(customer, id, kind) {
            Some(i) => Some(copy_bytes(&self.records[i].value)),
            None => None,
        }
    }

    /// Stores `value` under the key, replacing what was there.
    pub fn insert(&mut self, customer: &String, id: &String, kind: EcdsaStruct, value: Vec<u8>)
        requires
            old(self).wf(),
        ensures
            final(self).wf(),
            final(self)@ == old(self)@.insert((customer@, id@, kind), value@),
    {
        let ghost key = (customer@, id@, kind);
        let ghost v = value@;
        match self.find(customer, id, kind) {
            Some(i) => {
                let rec = Record {
                    customer: self.records[i].customer.clone(),
                    session: self.records[i].session.clone(),
                    kind,
                    value,
                };
                self.records.set(i, rec);
                self.contents = Ghost(self.contents@.insert(key, v));
                assert forall|k: ArtifactKey| #[trigger]
                    self.contents@.contains_key(k) implies exists|j: int|
                        0 <= j < self.records.len() && #[trigger] self.records[j].key() == k by {
                    if k != key {
                        let j = choose|j: int|
                            0 <= j < old(self).records.len() && #[trigger] old(self).records[j].key()
                                == k;
                        assert(self.records[j].key() == k);
                    } else {
                        assert(self.records[i as int].key() == k);
                    }
                }
            },
            None => {
                let rec = Record { customer: customer.clone(), session: id.clone(), kind, value };
                self.records.push(rec);
                self.contents = Ghost(self.contents@.insert(key, v));
                let ghost n = self.records.len() - 1;
                assert(self.records[n].key() == key);
                assert forall|k: ArtifactKey| #[trigger]
                    self.contents@.contains_key(k) implies exists|j: int|
                        0 <= j < self.records.len() && #[trigger] self.records[j].key() == k by {
                    if k != key {
                        let j = choose|j: int|
                            0 <= j < old(self).records.len() && #[trigger] old(self).records[j].key()
                                == k;
                        assert(self.records[j].key() == k);
                    } else {
                        assert(self.records[n].key() == k);
                    }
                }
            },
        }
    }

    /// Whether any customer holds an artifact under session `id`.
    pub fn session_in_use(&self, id: &String) -> (r: bool)
        requires
            self.wf(),
        ensures
            r == session_used(self@, id@),
    {
        let mut i: usize = 0;
        while i < self.records.len()
            invariant
                self.wf(),
                i <= self.records.len(),
                forall|j: int| 0 <= j < i ==> #[trigger] self.records[j].session@ != id@,
            decreases self.records.len() - i,
        {
            if self.records[i].session == *id {
                let ghost k = self.records[i as int].key();
                assert(self@.contains_key((k.0, id@, k.2)));
                return true;
            }
            i = i + 1;
        }
        assert forall|c: Seq<char>, k: EcdsaStruct| !#[trigger] self@.contains_key((c, id@, k)) by {
            if self@.contains_key((c, id@, k)) {
                let j = choose|j: int|
                    0 <= j < self.records.len() && #[trigger] self.records[j].key() == (c, id@, k);
                assert(self.records[j].session@ == id@);
            }
        }
        false
    }
}

} // verus!
