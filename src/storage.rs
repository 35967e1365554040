//! Storable values, a key-addressed store for one kind of value, and the
//! binding of a node's block store and deploy store.
use vstd::prelude::*;

verus! {

/// Abstract content of a stored value.
pub struct ValueModel {
    pub id: u64,
    pub header: Seq<u8>,
    pub body: Seq<u8>,
}

/// A durable domain object (a block or a deploy): a stable identifier, a
/// detachable header and the full body.
#[derive(Clone, Debug, PartialEq, Eq)]
pub struct StoredValue {
    pub id: u64,
    pub header: Vec<u8>,
    pub body: Vec<u8>,
}

impl View for StoredValue {
    type V = ValueModel;

    open spec fn view(&self) -> ValueModel {
        ValueModel { id: self.id, header: self.header@, body: self.body@ }
    }
}

fn copy_bytes(b: &Vec<u8>) -> (r: Vec<u8>)
    ensures
        r@ == b@,
{
    let mut r: Vec<u8> = Vec::new();
    let mut i: usize = 0;
    while i < b.len()
        invariant
            i <= b.len(),
            r@ == b@.subrange(0, i as int),
        decreases b.len() - i,
    {
        r.push(b[i]);
        i = i + 1;
    }
    assert(r@ =~= b@);
    r
}

impl StoredValue {
    pub fn new(id: u64, header: Vec<u8>, body: Vec<u8>) -> (r: Self)
        ensures
            r@ == (ValueModel { id, header: header@, body: body@ }),
    {
        StoredValue { id, header, body }
    }

    /// The identifier, fixed for the value's lifetime.
    pub fn id(&self) -> (r: u64)
        ensures
            r == self.id,
    {
        self.id
    }

    /// The header, derived from the value alone.
    pub fn header(&self) -> (r: Vec<u8>)
        ensures
            r@ == self.header@,
    {
        copy_bytes(&self.header)
    }

    /// A copy with the same content.
    pub fn duplicate(&self) -> (r: Self)
        ensures
            r@ == self@,
    {
        StoredValue { id: self.id, header: copy_bytes(&self.header), body: copy_bytes(&self.body) }
    }
}

/// Store content after a `put` of `v`: unchanged when `v.id` is taken.
pub open spec fn put_model(s: Map<u64, ValueModel>, v: ValueModel) -> Map<u64, ValueModel> {
    if s.contains_key(v.id) {
        s
    } else {
        s.insert(v.id, v)
    }
}

/// Maps identifiers to values. A second `put` under an identifier that is
/// already stored is a no-op that reports `false`: the first write wins.
pub struct Store {
    entries: Vec<StoredValue>,
    contents: Ghost<Map<u64, ValueModel>>,
}

impl View for Store {
    type V = Map<u64, ValueModel>;

    closed spec fn view(&self) -> Map<u64, ValueModel> {
        self.contents@
    }
}

impl Store {
    pub closed spec fn wf(&self) -> bool {
        &&& forall|i: int|
            0 <= i < self.entries@.len() ==> #[trigger] self.contents@.contains_key(
                self.entries@[i].id,
            ) && self.contents@[self.entries@[i].id] == self.entries@[i]@
        &&& forall|k: u64|
            #[trigger] self.contents@.contains_key(k) ==> exists|i: int|
                0 <= i < self.entries@.len() && #[trigger] self.entries@[i].id == k
        &&& forall|k: u64| #[trigger] self.contents@.contains_key(k) ==> self.contents@[k].id == k
        &&& forall|i: int, j: int|
            0 <= i < j < self.entries@.len() ==> #[trigger] self.entries@[i].id
                != #[trigger] self.entries@[j].id
    }

    /// Each value is stored under its own identifier.
    pub proof fn lemma_ids_match(&self)
        requires
            self.wf(),
        ensures
            forall|k: u64| #[trigger] self@.contains_key(k) ==> self@[k].id == k,
    {
    }

    pub fn new() -> (r: Self)
        ensures
            r.wf(),
            r@ == Map::<u64, ValueModel>::empty(),
    {
        Store { entries: Vec::new(), contents: Ghost(Map::empty()) }
    }

    /// Number of stored values.
    pub fn len(&self) -> (n: usize)
        requires
            self.wf(),
        ensures
            n == self@.len(),
    {
        proof {
            self.lemma_len();
        }
        self.entries.len()
    }

    proof fn lemma_len(&self)
        requires
            self.wf(),
        ensures
            self@.len() == self.entries@.len(),
        decreases self.entries@.len(),
    {
        let ids = Seq::new(self.entries@.len(), |i: int| self.entries@[i].id);
        assert(ids.no_duplicates());
        ids.unique_seq_to_set();
        assert(ids.to_set() =~= self@.dom()) by {
            assert forall|k: u64| ids.to_set().contains(k) implies self@.dom().contains(k) by {
                let i = choose|i: int| 0 <= i < ids.len() && ids[i] == k;
                assert(self.contents@.contains_key(self.entries@[i].id));
            }
            assert forall|k: u64| self@.dom().contains(k) implies ids.to_set().contains(k) by {
                assert(self.contents@.contains_key(k));
                let i = choose|i: int| 0 <= i < self.entries@.len() && #[trigger] self.entries@[i].id == k;
                assert(ids[i] == k);
            }
        }
    }

    fn position(&self, id: u64) -> (r: Option<usize>)
        requires
            self.wf(),
        ensures
            match r {
                Some(i) => i < self.entries@.len() && self.entries@[i as int].id == id,
                None => !self@.contains_key(id),
            },
    {
        let mut i: usize = 0;
        while i < self.entries.len()
            invariant
                self.wf(),
                i <= self.entries@.len(),
                forall|j: int| 0 <= j < i ==> self.entries@[j].id != id,
            decreases self.entries@.len() - i,
        {
            if self.entries[i].id == id {
                return Some(i);
            }
            i = i + 1;
        }
        None
    }

    /// Whether a value is stored under `id`.
    pub fn contains(&self, id: u64) -> (r: bool)
        requires
            self.wf(),
        ensures
            r == self@.contains_key(id),
    {
        match self.position(id) {
            Some(i) => {
                assert(self.contents@.contains_key(self.entries@[i as int].id));
                true
            },
            None => false,
        }
    }

    /// Stores `value` unless its identifier is already present; reports
    /// whether it was stored.
    pub fn put(&mut self, value: StoredValue) -> (r: bool)
        requires
            old(self).wf(),
        ensures
            final(self).wf(),
            r == !old(self)@.contains_key(value.id),
            final(self)@ == put_model(old(self)@, value@),
    {
        if self.contains(value.id) {
            return false;
        }
        let ghost v = value@;
        self.contents = Ghost(self.contents@.insert(value.id, v));
        self.entries.push(value);
        assert forall|k: u64| #[trigger] self.contents@.contains_key(k) implies exists|i: int|
            0 <= i < self.entries@.len() && #[trigger] self.entries@[i].id == k by {
            if k != v.id {
                assert(old(self).contents@.contains_key(k));
                let i = choose|i: int|
                    0 <= i < old(self).entries@.len() && #[trigger] old(self).entries@[i].id == k;
                assert(self.entries@[i].id == k);
            } else {
                assert(self.entries@[self.entries@.len() - 1].id == k);
            }
        }
        assert forall|i: int| 0 <= i < self.entries@.len() implies #[trigger] self.contents@.contains_key(
            self.entries@[i].id,
        ) && self.contents@[self.entries@[i].id] == self.entries@[i]@ by {
            if i < old(self).entries@.len() {
                assert(old(self).contents@.contains_key(old(self).entries@[i].id));
            }
        }
        assert forall|i: int, j: int| 0 <= i < j < self.entries@.len() implies #[trigger] self.entries@[i].id
            != #[trigger] self.entries@[j].id by {
            if j == self.entries@.len() - 1 {
                assert(old(self).contents@.contains_key(old(self).entries@[i].id));
            }
        }
        true
    }

    /// A copy of the value stored under `id`; `None` when absent.
    pub fn get(&self, id: u64) -> (r: Option<StoredValue>)
        requires
            self.wf(),
        ensures
            match r {
                Some(v) => self@.contains_key(id) && v@ == self@[id],
                None => !self@.contains_key(id),
            },
    {
        match self.position(id) {
            Some(i) => {
                assert(self.contents@.contains_key(self.entries@[i as int].id));
                Some(self.entries[i].duplicate())
            },
            None => None,
        }
    }

    /// The header of the value stored under `id`; `None` when absent.
    pub fn get_header(&self, id: u64) -> (r: Option<Vec<u8>>)
        requires
            self.wf(),
        ensures
            match r {
                Some(h) => self@.contains_key(id) && h@ == self@[id].header,
                None => !self@.contains_key(id),
            },
    {
        match self.position(id) {
            Some(i) => {
                assert(self.contents@.contains_key(self.entries@[i as int].id));
                Some(self.entries[i].header())
            },
            None => None,
        }
    }
}

/// A node's storage binding: exactly one block store and one deploy store.
pub struct Storage {
    pub blocks: Store,
    pub deploys: Store,
}

impl Storage {
    pub open spec fn wf(&self) -> bool {
        self.blocks.wf() && self.deploys.wf()
    }

    pub fn new() -> (r: Self)
        ensures
            r.wf(),
            r.blocks@ == Map::<u64, ValueModel>::empty(),
            r.deploys@ == Map::<u64, ValueModel>::empty(),
    {
        Storage { blocks: Store::new(), deploys: Store::new() }
    }
}

/// An identifier that was never written is reported absent, not as an
/// error: a `put` of a value with another identifier does not make it present.
pub proof fn lemma_absent_until_written(s: Map<u64, ValueModel>, v: ValueModel, id: u64)
    requires
        !s.contains_key(id),
        v.id != id,
    ensures
        !put_model(s, v).contains_key(id),
{
}

/// Round trip: after `put(v)` the store holds a value under `v.id` with that
/// same identifier; it is `v` itself unless another value held the
/// identifier already, and a second `put` of `v` changes nothing.
pub proof fn lemma_put_then_get(s: Map<u64, ValueModel>, v: ValueModel)
    requires
        forall|k: u64| #[trigger] s.contains_key(k) ==> s[k].id == k,
    ensures
        put_model(s, v).contains_key(v.id),
        put_model(s, v)[v.id].id == v.id,
        !s.contains_key(v.id) ==> put_model(s, v)[v.id] == v,
        put_model(put_model(s, v), v) == put_model(s, v),
{
}

} // verus!
