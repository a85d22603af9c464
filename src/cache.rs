use crate::error::FileError;
use crate::identity::PathHash;
use std::collections::HashMap;
use vstd::prelude::*;

verus! {

broadcast use vstd::std_specs::hash::group_hash_axioms;

/// What a lookup in the cache found for a path.
pub enum Lookup<T> {
    /// The identity of the path has not been computed yet.
    NeedIdentity,
    /// The identity is known, the artifact of that file has not been produced.
    NeedLoad(PathHash),
    /// The outcome stored for the path, a success or a failure.
    Ready(Result<T, FileError>),
}

/// The canonical data of all paths that reach the same file.
pub struct PathSlot {
    /// The id under which the file was registered as a source.
    pub source: Option<Result<usize, FileError>>,
    /// The file's bytes.
    pub buffer: Option<Result<Vec<u8>, FileError>>,
}

/// Memoizes, per path string, the identity of the file it reaches and, per
/// identity, the artifacts produced from that file. Each entry is written
/// once: the first outcome recorded is the one every later lookup sees.
pub struct PathCache {
    hashes: Vec<(String, Result<PathHash, FileError>)>,
    slots: HashMap<u128, PathSlot>,
}

pub open spec fn bytes_view(r: Result<Vec<u8>, FileError>) -> Result<Seq<u8>, FileError> {
    match r {
        Ok(b) => Ok(b@),
        Err(e) => Err(e),
    }
}

impl PathCache {
    /// No path string is recorded twice.
    pub closed spec fn wf(&self) -> bool {
        forall|i: int, j: int|
            0 <= i < j < self.hashes@.len() ==> self.hashes@[i].0@ != self.hashes@[j].0@
    }

    /// The recorded identity of the path spelled `p`, if any.
    pub closed spec fn identity_of(&self, p: Seq<char>) -> Option<Result<PathHash, FileError>> {
        if exists|i: int| 0 <= i < self.hashes@.len() && self.hashes@[i].0@ == p {
            let i = choose|i: int| 0 <= i < self.hashes@.len() && self.hashes@[i].0@ == p;
            Some(self.hashes@[i].1)
        } else {
            None
        }
    }

    /// The recorded bytes of the file with hash `h`, if any.
    pub closed spec fn buffer_of(&self, h: PathHash) -> Option<Result<Seq<u8>, FileError>> {
        if self.slots@.contains_key(h.0) && self.slots@[h.0].buffer is Some {
            Some(bytes_view(self.slots@[h.0].buffer->Some_0))
        } else {
            None
        }
    }

    /// The recorded source id of the file with hash `h`, if any.
    pub closed spec fn source_of(&self, h: PathHash) -> Option<Result<usize, FileError>> {
        if self.slots@.contains_key(h.0) {
            self.slots@[h.0].source
        } else {
            None
        }
    }

    /// Nothing is recorded.
    pub open spec fn is_empty(&self) -> bool {
        &&& forall|p: Seq<char>| #[trigger] self.identity_of(p) is None
        &&& forall|h: PathHash| #[trigger] self.buffer_of(h) is None
        &&& forall|h: PathHash| #[trigger] self.source_of(h) is None
    }

    /// What a lookup of the bytes of the path spelled `p` finds.
    pub open spec fn bytes_lookup(&self, p: Seq<char>) -> Lookup<Seq<u8>> {
        match self.identity_of(p) {
            None => Lookup::NeedIdentity,
            Some(Err(e)) => Lookup::Ready(Err(e)),
            Some(Ok(h)) => match self.buffer_of(h) {
                None => Lookup::NeedLoad(h),
                Some(r) => Lookup::Ready(r),
            },
        }
    }

    /// What a lookup of the source id of the path spelled `p` finds.
    pub open spec fn source_lookup(&self, p: Seq<char>) -> Lookup<usize> {
        match self.identity_of(p) {
            None => Lookup::NeedIdentity,
            Some(Err(e)) => Lookup::Ready(Err(e)),
            Some(Ok(h)) => match self.source_of(h) {
                None => Lookup::NeedLoad(h),
                Some(r) => Lookup::Ready(r),
            },
        }
    }

    /// An empty cache.
    pub fn new() -> (r: PathCache)
        ensures
            r.wf(),
            r.is_empty(),
    {
        PathCache { hashes: Vec::new(), slots: HashMap::new() }
    }

    /// Forgets every identity and every artifact.
    pub fn reset(&mut self)
        ensures
            final(self).wf(),
            final(self).is_empty(),
    {
        self.hashes.clear();
        self.slots.clear();
    }
    /// The position of the path spelled `path` among the recorded ones.
    fn find(&self, path: &String) -> (r: Option<usize>)
        ensures
            match r {
                Some(i) => i < self.hashes@.len() && self.hashes@[i as int].0@ == path@,
                None => forall|i: int|
                    0 <= i < self.hashes@.len() ==> self.hashes@[i].0@ != path@,
            },
    {
        let mut i: usize = 0;
        while i < self.hashes.len()
            invariant
                i <= self.hashes@.len(),
                forall|j: int| 0 <= j < i ==> self.hashes@[j].0@ != path@,
            decreases self.hashes@.len() - i,
        {
            if self.hashes[i].0 == *path {
                return Some(i);
            }
            i = i + 1;
        }
        None
    }

    /// The recorded identity of the path spelled `path`, if any.
    pub fn identity(&self, path: &String) -> (r: Option<Result<PathHash, FileError>>)
        requires
            self.wf(),
        ensures
            r == self.identity_of(path@),
    {
        match self.find(path) {
            Some(i) => {
                assert(self.hashes@[i as int].0@ == path@);
                Some(self.hashes[i].1)
            },
            None => None,
        }
    }

    /// Records the identity of the path spelled `path`, unless one is
    /// recorded already: the first outcome stays.
    pub fn record_identity(&mut self, path: String, id: Result<PathHash, FileError>)
        requires
            old(self).wf(),
        ensures
            final(self).wf(),
            final(self).identity_of(path@) == (match old(self).identity_of(path@) {
                Some(r) => Some(r),
                None => Some(id),
            }),
            forall|p: Seq<char>| p != path@ ==> #[trigger] final(self).identity_of(p)
                == old(self).identity_of(p),
            forall|h: PathHash| #[trigger] final(self).buffer_of(h) == old(self).buffer_of(h),
            forall|h: PathHash| #[trigger] final(self).source_of(h) == old(self).source_of(h),
    {
        match self.find(&path) {
            Some(i) => {
                assert(self.hashes@[i as int].0@ == path@);
            },
            None => {
                let ghost path_view = path@;
                self.hashes.push((path, id));
                let ghost n: int = self.hashes@.len() - 1;
                assert(self.hashes@[n].0@ == path_view);
                assert forall|p: Seq<char>| p != path_view implies #[trigger] self.identity_of(p)
                    == old(self).identity_of(p) by {
                    if exists|i: int| 0 <= i < old(self).hashes@.len() && old(self).hashes@[i].0@ == p {
                        let i = choose|i: int| 0 <= i < old(self).hashes@.len() && old(self).hashes@[i].0@ == p;
                        assert(self.hashes@[i].0@ == p);
                    }
                }
            },
        }
    }

    /// Looks up the bytes of the path spelled `path`.
    pub fn lookup_bytes(&self, path: &String) -> (r: Lookup<Vec<u8>>)
        requires
            self.wf(),
        ensures
            match self.bytes_lookup(path@) {
                Lookup::NeedIdentity => r is NeedIdentity,
                Lookup::NeedLoad(h) => r == Lookup::<Vec<u8>>::NeedLoad(h),
                Lookup::Ready(Err(e)) => r == Lookup::<Vec<u8>>::Ready(Err(e)),
                Lookup::Ready(Ok(b)) => r matches Lookup::Ready(Ok(v)) && v@ == b,
            },
    {
        match self.identity(path) {
            None => Lookup::NeedIdentity,
            Some(Err(e)) => Lookup::Ready(Err(e)),
            Some(Ok(h)) => match self.slots.get(&h.0) {
                Some(slot) => match &slot.buffer {
                    Some(Ok(b)) => Lookup::Ready(Ok(b.clone())),
                    Some(Err(e)) => Lookup::Ready(Err(*e)),
                    None => Lookup::NeedLoad(h),
                },
                None => Lookup::NeedLoad(h),
            },
        }
    }

    /// The recorded source id of the file with hash `h`, if any.
    pub fn recorded_source(&self, h: PathHash) -> (r: Option<Result<usize, FileError>>)
        ensures
            r == self.source_of(h),
    {
        match self.slots.get(&h.0) {
            Some(slot) => slot.source,
            None => None,
        }
    }

    /// Looks up the source id of the path spelled `path`.
    pub fn lookup_source(&self, path: &String) -> (r: Lookup<usize>)
        requires
            self.wf(),
        ensures
            r == self.source_lookup(path@),
    {
        match self.identity(path) {
            None => Lookup::NeedIdentity,
            Some(Err(e)) => Lookup::Ready(Err(e)),
            Some(Ok(h)) => match self.slots.get(&h.0) {
                Some(slot) => match slot.source {
                    Some(r) => Lookup::Ready(r),
                    None => Lookup::NeedLoad(h),
                },
                None => Lookup::NeedLoad(h),
            },
        }
    }

    /// Records the bytes of the file with hash `h`, unless some are recorded
    /// already: the first outcome stays.
    pub fn record_bytes(&mut self, h: PathHash, bytes: Result<Vec<u8>, FileError>)
        requires
            old(self).wf(),
        ensures
            final(self).wf(),
            final(self).buffer_of(h) == (match old(self).buffer_of(h) {
                Some(r) => Some(r),
                None => Some(bytes_view(bytes)),
            }),
            forall|g: PathHash| g != h ==> #[trigger] final(self).buffer_of(g)
                == old(self).buffer_of(g),
            forall|g: PathHash| #[trigger] final(self).source_of(g) == old(self).source_of(g),
            forall|p: Seq<char>| #[trigger] final(self).identity_of(p) == old(self).identity_of(p),
    {
        let source = match self.slots.get(&h.0) {
            Some(slot) => {
                if slot.buffer.is_some() {
                    return;
                }
                slot.source
            },
            None => None,
        };
        self.slots.insert(h.0, PathSlot { source, buffer: Some(bytes) });
        assert(self.hashes@ == old(self).hashes@);
        assert forall|g: PathHash| g != h implies #[trigger] self.buffer_of(g)
            == old(self).buffer_of(g) by {
            assert(g.0 != h.0);
        }
    }

    /// Records the source id of the file with hash `h`, unless one is
    /// recorded already: the first outcome stays.
    pub fn record_source(&mut self, h: PathHash, id: Result<usize, FileError>)
        requires
            old(self).wf(),
        ensures
            final(self).wf(),
            final(self).source_of(h) == (match old(self).source_of(h) {
                Some(r) => Some(r),
                None => Some(id),
            }),
            forall|g: PathHash| g != h ==> #[trigger] final(self).source_of(g)
                == old(self).source_of(g),
            forall|g: PathHash| #[trigger] final(self).buffer_of(g) == old(self).buffer_of(g),
            forall|p: Seq<char>| #[trigger] final(self).identity_of(p) == old(self).identity_of(p),
    {
        let buffer = match self.slots.remove(&h.0) {
            Some(slot) => {
                if slot.source.is_some() {
                    self.slots.insert(h.0, slot);
                    assert(self.slots@ =~= old(self).slots@);
                    assert(self.hashes@ == old(self).hashes@);
                    return;
                }
                slot.buffer
            },
            None => None,
        };
        self.slots.insert(h.0, PathSlot { source: Some(id), buffer });
        assert(self.hashes@ == old(self).hashes@);
        assert forall|g: PathHash| g != h implies #[trigger] self.source_of(g)
            == old(self).source_of(g) by {
            assert(g.0 != h.0);
        }
    }
}

/// Two paths that reach the same file share one slot: a lookup of the bytes
/// finds the same thing through either, and once the bytes of that file are
/// recorded, neither path asks for another read.
pub proof fn lemma_aliases_share_bytes(c: PathCache, pa: Seq<char>, pb: Seq<char>, h: PathHash)
    requires
        c.identity_of(pa) == Some(Ok::<PathHash, FileError>(h)),
        c.identity_of(pb) == Some(Ok::<PathHash, FileError>(h)),
    ensures
        c.bytes_lookup(pa) == c.bytes_lookup(pb),
        c.buffer_of(h) matches Some(r) ==> c.bytes_lookup(pb) == Lookup::Ready(r),
{
}

/// Two paths that reach the same file share one slot: once the file is
/// parsed and registered, every lookup through either path finds that one
/// outcome, and none asks for another parse.
pub proof fn lemma_aliases_share_source(c: PathCache, pa: Seq<char>, pb: Seq<char>, h: PathHash)
    requires
        c.identity_of(pa) == Some(Ok::<PathHash, FileError>(h)),
        c.identity_of(pb) == Some(Ok::<PathHash, FileError>(h)),
    ensures
        c.source_lookup(pa) == c.source_lookup(pb),
        c.source_of(h) matches Some(r) ==> c.source_lookup(pb) == Lookup::Ready(r),
{
}

} // verus!
