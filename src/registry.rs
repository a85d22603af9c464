use crate::error::FileError;
use vstd::prelude::*;

verus! {

/// A registered source document: its virtual path and its text.
pub struct SourceEntry {
    pub path: String,
    pub text: String,
}

/// An append-only store of source documents, addressed by the position at
/// which each was registered.
pub struct SourceRegistry {
    entries: Vec<SourceEntry>,
}

impl View for SourceRegistry {
    type V = Seq<(Seq<char>, Seq<char>)>;

    closed spec fn view(&self) -> Seq<(Seq<char>, Seq<char>)> {
        self.entries@.map_values(|e: SourceEntry| (e.path@, e.text@))
    }
}

impl SourceRegistry {
    /// An empty registry.
    pub fn new() -> (r: SourceRegistry)
        ensures
            r@ == Seq::<(Seq<char>, Seq<char>)>::empty(),
    {
        let r = SourceRegistry { entries: Vec::new() };
        assert(r@ =~= Seq::<(Seq<char>, Seq<char>)>::empty());
        r
    }

    /// How many sources are registered.
    pub fn len(&self) -> (r: usize)
        ensures
            r == self@.len(),
    {
        self.entries.len()
    }

    /// Appends a source and returns its id, the next unused position.
    pub fn register(&mut self, path: String, text: String) -> (id: usize)
        requires
            old(self)@.len() < usize::MAX,
        ensures
            id == old(self)@.len(),
            final(self)@ == old(self)@.push((path@, text@)),
    {
        let id = self.entries.len();
        let ghost entry = (path@, text@);
        self.entries.push(SourceEntry { path, text });
        assert(self@ =~= old(self)@.push(entry));
        id
    }

    /// The source with the given id.
    pub fn get(&self, id: usize) -> (r: Result<&SourceEntry, FileError>)
        ensures
            match r {
                Ok(e) => id < self@.len() && (e.path@, e.text@) == self@[id as int],
                Err(e) => id >= self@.len() && e == FileError::NotFound,
            },
    {
        if id < self.entries.len() {
            Ok(&self.entries[id])
        } else {
            Err(FileError::NotFound)
        }
    }
}

/// Registration only appends: when `r1` is `r0` after registering `a`, and
/// `r2` is `r1` after registering `b`, the two ids increase, the first id
/// still holds `a`, and every earlier source is unchanged.
pub proof fn lemma_register_append_only(
    r0: SourceRegistry,
    r1: SourceRegistry,
    r2: SourceRegistry,
    a: (Seq<char>, Seq<char>),
    b: (Seq<char>, Seq<char>),
)
    requires
        r1@ == r0@.push(a),
        r2@ == r1@.push(b),
    ensures
        r0@.len() < r1@.len(),
        r2@[r0@.len() as int] == a,
        r2@[r1@.len() as int] == b,
        forall|i: int| 0 <= i < r0@.len() ==> #[trigger] r2@[i] == r0@[i],
{
}

} // verus!
