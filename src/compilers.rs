use vstd::prelude::*;

verus! {

/// The family of a detected compiler.
#[derive(Clone, Copy, PartialEq, Eq, Structural, Debug)]
pub enum CompilerKind {
    Gcc,
    Clang,
    Msvc,
}

/// A file modification time: whole seconds since the epoch and nanoseconds.
#[derive(Clone, Copy, PartialEq, Eq, Structural, Debug)]
pub struct ModTime {
    pub seconds: i64,
    pub nanos: u32,
}

/// A detected compiler.
pub struct CompilerInfo {
    pub kind: CompilerKind,
    pub executable: String,
    pub mtime: ModTime,
    pub version: String,
}

pub struct CompilerInfoView {
    pub kind: CompilerKind,
    pub executable: Seq<char>,
    pub mtime: ModTime,
    pub version: Seq<char>,
}

impl View for CompilerInfo {
    type V = CompilerInfoView;

    open spec fn view(&self) -> CompilerInfoView {
        CompilerInfoView {
            kind: self.kind,
            executable: self.executable@,
            mtime: self.mtime,
            version: self.version@,
        }
    }
}

impl CompilerInfo {
    pub fn duplicate(&self) -> (r: CompilerInfo)
        ensures
            r@ == self@,
    {
        CompilerInfo {
            kind: self.kind,
            executable: self.executable.clone(),
            mtime: self.mtime,
            version: self.version.clone(),
        }
    }
}

pub open spec fn info_view(i: Option<CompilerInfo>) -> Option<CompilerInfoView> {
    match i {
        Some(c) => Some(c@),
        None => None,
    }
}

fn duplicate_info(i: &Option<CompilerInfo>) -> (r: Option<CompilerInfo>)
    ensures
        info_view(r) == info_view(*i),
{
    match i {
        Some(c) => Some(c.duplicate()),
        None => None,
    }
}

/// What the cache keeps for one executable: the modification time seen when
/// it was detected, and the compiler found there (`None`: not a compiler).
pub type CachedCompiler = (ModTime, Option<CompilerInfoView>);

struct Entry {
    path: String,
    mtime: ModTime,
    info: Option<CompilerInfo>,
}

/// Maps an executable's path to what was detected there, negative results
/// included.
///
/// The entries sit in a vector with unique paths rather than in a hash map:
/// vstd's specification of `HashMap` describes its contents only for key
/// types that it declares to follow its key model (integers and `bool`),
/// and for a `String` key that could only be assumed, so a map keyed by path
/// could not be proved to return what was inserted.
pub struct CompilerInfoCache {
    entries: Vec<Entry>,
    model: Ghost<Map<Seq<char>, CachedCompiler>>,
}

/// The answer of a lookup: `Some(detected)` when the entry may be used,
/// `None` when detection must run again.
pub open spec fn lookup_result(
    m: Map<Seq<char>, CachedCompiler>,
    path: Seq<char>,
    current: Option<ModTime>,
) -> Option<Option<CompilerInfoView>> {
    match current {
        Some(t) => if m.contains_key(path) && m[path].0 == t {
            Some(m[path].1)
        } else {
            None
        },
        None => None,
    }
}

/// The cache after a lookup: an entry that was not used is dropped.
pub open spec fn after_lookup(
    m: Map<Seq<char>, CachedCompiler>,
    path: Seq<char>,
    current: Option<ModTime>,
) -> Map<Seq<char>, CachedCompiler> {
    if lookup_result(m, path, current).is_some() {
        m
    } else {
        m.remove(path)
    }
}

impl View for CompilerInfoCache {
    type V = Map<Seq<char>, CachedCompiler>;

    closed spec fn view(&self) -> Map<Seq<char>, CachedCompiler> {
        self.model@
    }
}

impl CompilerInfoCache {
    pub closed spec fn wf(&self) -> bool {
        &&& forall|i: int, j: int|
            0 <= i < j < self.entries@.len() ==> self.entries@[i].path@
                != self.entries@[j].path@
        &&& forall|i: int|
            0 <= i < self.entries@.len() ==> {
                let e = #[trigger] self.entries@[i];
                &&& self.model@.contains_key(e.path@)
                &&& self.model@[e.path@] == (e.mtime, info_view(e.info))
            }
        &&& forall|p: Seq<char>|
            #[trigger] self.model@.contains_key(p) ==> exists|i: int|
                0 <= i < self.entries@.len() && self.entries@[i].path@ == p
    }

    pub fn new() -> (r: CompilerInfoCache)
        ensures
            r.wf(),
            r@ == Map::<Seq<char>, CachedCompiler>::empty(),
    {
        CompilerInfoCache { entries: Vec::new(), model: Ghost(Map::empty()) }
    }

    fn find(&self, path: &String) -> (r: Option<usize>)
        requires
            self.wf(),
        ensures
            match r {
                Some(i) => i < self.entries@.len() && self.entries@[i as int].path@ == path@,
                None => !self@.contains_key(path@),
            },
    {
        let mut i: usize = 0;
        while i < self.entries.len()
            invariant
                self.wf(),
                i <= self.entries@.len(),
                forall|k: int| 0 <= k < i ==> self.entries@[k].path@ != path@,
            decreases self.entries@.len() - i,
        {
            if self.entries[i].path == *path {
                return Some(i);
            }
            i = i + 1;
        }
        None
    }

    /// Looks up the compiler at `path`, given the executable's modification
    /// time now (`None` when it cannot be read). The entry is used only when
    /// its recorded time equals the current one; otherwise it is dropped and
    /// `None` says that detection must run.
    pub fn lookup(&mut self, path: &String, current: Option<ModTime>) -> (r: Option<
        Option<CompilerInfo>,
    >)
        requires
            old(self).wf(),
        ensures
            final(self).wf(),
            match r {
                Some(i) => lookup_result(old(self)@, path@, current) == Some(info_view(i)),
                None => lookup_result(old(self)@, path@, current) is None,
            },
            final(self)@ == after_lookup(old(self)@, path@, current),
    {
        match self.find(path) {
            None => {
                proof {
                    assert(self@.remove(path@) =~= self@);
                }
                None
            },
            Some(i) => {
                let hit = match current {
                    Some(t) => self.entries[i].mtime == t,
                    None => false,
                };
                if hit {
                    Some(duplicate_info(&self.entries[i].info))
                } else {
                    let ghost p = self.entries@[i as int].path@;
                    let ghost old_entries = self.entries@;
                    self.entries.remove(i);
                    self.model = Ghost(self.model@.remove(p));
                    proof {
                        assert forall|k: int|
                            0 <= k < self.entries@.len() implies {
                            let e = #[trigger] self.entries@[k];
                            &&& self.model@.contains_key(e.path@)
                            &&& self.model@[e.path@] == (e.mtime, info_view(e.info))
                        } by {
                            let ko = if k < i { k } else { k + 1 };
                            assert(self.entries@[k] == old_entries[ko]);
                        }
                        assert forall|q: Seq<char>| #[trigger]
                            self.model@.contains_key(q) implies exists|k: int|
                            0 <= k < self.entries@.len() && self.entries@[k].path@ == q by {
                            let ko = choose|ko: int|
                                0 <= ko < old_entries.len() && old_entries[ko].path@ == q;
                            if ko < i {
                                assert(self.entries@[ko].path@ == q);
                            } else {
                                assert(self.entries@[ko - 1].path@ == q);
                            }
                        }
                    }
                    None
                }
            },
        }
    }

    /// Records what detection found for the executable at `path`, whose
    /// modification time was `mtime`.
    pub fn insert(&mut self, path: String, mtime: ModTime, info: Option<CompilerInfo>)
        requires
            old(self).wf(),
        ensures
            final(self).wf(),
            final(self)@ == old(self)@.insert(path@, (mtime, info_view(info))),
    {
        let ghost p = path@;
        let ghost v = (mtime, info_view(info));
        let ghost old_entries = self.entries@;
        match self.find(&path) {
            Some(i) => {
                self.entries.set(i, Entry { path, mtime, info });
                self.model = Ghost(self.model@.insert(p, v));
                proof {
                    assert forall|q: Seq<char>| #[trigger]
                        self.model@.contains_key(q) implies exists|k: int|
                        0 <= k < self.entries@.len() && self.entries@[k].path@ == q by {
                        if q != p {
                            let ko = choose|ko: int|
                                0 <= ko < old_entries.len() && old_entries[ko].path@ == q;
                            assert(self.entries@[ko].path@ == q);
                        } else {
                            assert(self.entries@[i as int].path@ == q);
                        }
                    }
                }
            },
            None => {
                self.entries.push(Entry { path, mtime, info });
                self.model = Ghost(self.model@.insert(p, v));
                proof {
                    let n = old_entries.len() as int;
                    assert(self.entries@[n].path@ == p);
                    assert forall|q: Seq<char>| #[trigger]
                        self.model@.contains_key(q) implies exists|k: int|
                        0 <= k < self.entries@.len() && self.entries@[k].path@ == q by {
                        if q != p {
                            let ko = choose|ko: int|
                                0 <= ko < old_entries.len() && old_entries[ko].path@ == q;
                            assert(self.entries@[ko].path@ == q);
                        }
                    }
                    assert forall|a: int, b: int|
                        0 <= a < b < self.entries@.len() implies self.entries@[a].path@
                        != self.entries@[b].path@ by {
                        if b == n {
                            assert(old_entries[a] == self.entries@[a]);
                            assert(old(self).model@.contains_key(old_entries[a].path@));
                        }
                    }
                }
            },
        }
    }
}

/// A lookup made after an executable's modification time changed does not
/// use what was recorded before: detection runs again, and the stale entry is
/// gone.
pub proof fn lemma_changed_mtime_redetects(
    m: Map<Seq<char>, CachedCompiler>,
    path: Seq<char>,
    recorded: ModTime,
    info: Option<CompilerInfoView>,
    now: ModTime,
)
    requires
        recorded != now,
    ensures
        lookup_result(m.insert(path, (recorded, info)), path, Some(now)) is None,
        !after_lookup(m.insert(path, (recorded, info)), path, Some(now)).contains_key(path),
{
}

/// A lookup with an unchanged modification time returns exactly what was
/// recorded, a negative result included.
pub proof fn lemma_unchanged_mtime_hits(
    m: Map<Seq<char>, CachedCompiler>,
    path: Seq<char>,
    recorded: ModTime,
    info: Option<CompilerInfoView>,
)
    ensures
        lookup_result(m.insert(path, (recorded, info)), path, Some(recorded)) == Some(info),
{
}

} // verus!
