use vstd::prelude::*;

verus! {

/// What a read of the cache found.
pub enum LookupOutcome {
    Hit(Vec<u8>),
    Miss,
    Error,
}

/// Whether a cache read may be served, for the compile pipeline.
pub enum LookupKind {
    Hit,
    Miss,
    Error,
}

/// What a read of `key` finds in a store whose contents are `m`.
pub open spec fn lookup_kind(m: Map<Seq<char>, Seq<u8>>, key: Seq<char>) -> LookupKind {
    if m.contains_key(key) {
        LookupKind::Hit
    } else {
        LookupKind::Miss
    }
}

pub open spec fn kind_of(o: &LookupOutcome) -> LookupKind {
    match o {
        LookupOutcome::Hit(_) => LookupKind::Hit,
        LookupOutcome::Miss => LookupKind::Miss,
        LookupOutcome::Error => LookupKind::Error,
    }
}

struct Blob {
    key: String,
    bytes: Vec<u8>,
}

/// A content-addressed store held in memory: each key maps to the bytes
/// written last under it. A write replaces the whole entry at once, so a
/// read never sees part of a write.
///
/// Like the compiler-info cache, it keeps unique keys in a vector, since a
/// `String`-keyed hash map could not be proved to return what was written.
pub struct MemoryStorage {
    blobs: Vec<Blob>,
    model: Ghost<Map<Seq<char>, Seq<u8>>>,
}

impl View for MemoryStorage {
    type V = Map<Seq<char>, Seq<u8>>;

    closed spec fn view(&self) -> Map<Seq<char>, Seq<u8>> {
        self.model@
    }
}

impl MemoryStorage {
    pub closed spec fn wf(&self) -> bool {
        &&& forall|i: int, j: int|
            0 <= i < j < self.blobs@.len() ==> self.blobs@[i].key@ != self.blobs@[j].key@
        &&& forall|i: int|
            0 <= i < self.blobs@.len() ==> {
                let b = #[trigger] self.blobs@[i];
                &&& self.model@.contains_key(b.key@)
                &&& self.model@[b.key@] == b.bytes@
            }
        &&& forall|k: Seq<char>|
            #[trigger] self.model@.contains_key(k) ==> exists|i: int|
                0 <= i < self.blobs@.len() && self.blobs@[i].key@ == k
    }

    pub fn new() -> (r: MemoryStorage)
        ensures
            r.wf(),
            r@ == Map::<Seq<char>, Seq<u8>>::empty(),
    {
        MemoryStorage { blobs: Vec::new(), model: Ghost(Map::empty()) }
    }

    /// Where the entries are kept, for the statistics report.
    pub fn location(&self) -> (r: String)
        ensures
            r@ == "Memory"@,
    {
        "Memory".to_owned()
    }

    fn find(&self, key: &String) -> (r: Option<usize>)
        requires
            self.wf(),
        ensures
            match r {
                Some(i) => i < self.blobs@.len() && self.blobs@[i as int].key@ == key@,
                None => !self@.contains_key(key@),
            },
    {
        let mut i: usize = 0;
        while i < self.blobs.len()
            invariant
                self.wf(),
                i <= self.blobs@.len(),
                forall|k: int| 0 <= k < i ==> self.blobs@[k].key@ != key@,
            decreases self.blobs@.len() - i,
        {
            if self.blobs[i].key == *key {
                return Some(i);
            }
            i = i + 1;
        }
        None
    }

    /// Reads the entry under `key`.
    pub fn get(&self, key: &String) -> (r: LookupOutcome)
        requires
            self.wf(),
        ensures
            match r {
                LookupOutcome::Hit(b) => self@.contains_key(key@) && b@ == self@[key@],
                LookupOutcome::Miss => !self@.contains_key(key@),
                LookupOutcome::Error => false,
            },
            kind_of(&r) == lookup_kind(self@, key@),
    {
        match self.find(key) {
            Some(i) => LookupOutcome::Hit(self.blobs[i].bytes.clone()),
            None => LookupOutcome::Miss,
        }
    }

    /// Stores `bytes` under `key`, replacing what was there.
    pub fn put(&mut self, key: String, bytes: Vec<u8>)
        requires
            old(self).wf(),
        ensures
            final(self).wf(),
            final(self)@ == old(self)@.insert(key@, bytes@),
    {
        let ghost k = key@;
        let ghost v = bytes@;
        let ghost old_blobs = self.blobs@;
        match self.find(&key) {
            Some(i) => {
                self.blobs.set(i, Blob { key, bytes });
                self.model = Ghost(self.model@.insert(k, v));
                proof {
                    assert forall|q: Seq<char>| #[trigger]
                        self.model@.contains_key(q) implies exists|j: int|
                        0 <= j < self.blobs@.len() && self.blobs@[j].key@ == q by {
                        if q != k {
                            let jo = choose|jo: int|
                                0 <= jo < old_blobs.len() && old_blobs[jo].key@ == q;
                            assert(self.blobs@[jo].key@ == q);
                        } else {
                            assert(self.blobs@[i as int].key@ == q);
                        }
                    }
                }
            },
            None => {
                self.blobs.push(Blob { key, bytes });
                self.model = Ghost(self.model@.insert(k, v));
                proof {
                    let n = old_blobs.len() as int;
                    assert(self.blobs@[n].key@ == k);
                    assert forall|q: Seq<char>| #[trigger]
                        self.model@.contains_key(q) implies exists|j: int|
                        0 <= j < self.blobs@.len() && self.blobs@[j].key@ == q by {
                        if q != k {
                            let jo = choose|jo: int|
                                0 <= jo < old_blobs.len() && old_blobs[jo].key@ == q;
                            assert(self.blobs@[jo].key@ == q);
                        }
                    }
                    assert forall|a: int, b: int|
                        0 <= a < b < self.blobs@.len() implies self.blobs@[a].key@
                        != self.blobs@[b].key@ by {
                        if b == n {
                            assert(old_blobs[a] == self.blobs@[a]);
                            assert(old(self).model@.contains_key(old_blobs[a].key@));
                        }
                    }
                }
            },
        }
    }
}

/// The store after a sequence of writes, each a key and the bytes written.
pub open spec fn after_writes(
    m: Map<Seq<char>, Seq<u8>>,
    writes: Seq<(Seq<char>, Seq<u8>)>,
) -> Map<Seq<char>, Seq<u8>>
    decreases writes.len(),
{
    if writes.len() == 0 {
        m
    } else {
        after_writes(m, writes.drop_last()).insert(writes.last().0, writes.last().1)
    }
}

/// When every write under a key carries the same bytes, as a content address
/// guarantees, and at least one such write was made, a read of that key
/// returns exactly those bytes, whatever else was written in between.
pub proof fn lemma_read_returns_written(
    m: Map<Seq<char>, Seq<u8>>,
    writes: Seq<(Seq<char>, Seq<u8>)>,
    key: Seq<char>,
    bytes: Seq<u8>,
)
    requires
        forall|i: int| 0 <= i < writes.len() && #[trigger] writes[i].0 == key ==> writes[i].1
            == bytes,
        exists|i: int| 0 <= i < writes.len() && #[trigger] writes[i].0 == key,
    ensures
        after_writes(m, writes).contains_key(key),
        after_writes(m, writes)[key] == bytes,
    decreases writes.len(),
{
    let n = writes.len() - 1;
    if writes[n].0 != key {
        let prefix = writes.drop_last();
        let i = choose|i: int| 0 <= i < writes.len() && #[trigger] writes[i].0 == key;
        assert(prefix[i].0 == key);
        assert forall|j: int| 0 <= j < prefix.len() && #[trigger] prefix[j].0 == key implies prefix[j].1
            == bytes by {
            assert(prefix[j] == writes[j]);
        }
        lemma_read_returns_written(m, prefix, key, bytes);
    }
}

} // verus!
