use crate::cache::PathCache;
use crate::error::FileError;
use crate::fonts::{FontIndex, FontLookup};
use crate::identity::PathHash;
use crate::registry::{SourceEntry, SourceRegistry};
use typst::text::Font;
use vstd::prelude::*;

verus! {

/// The virtual path under which each pass registers its markup.
pub open spec fn main_path() -> Seq<char> {
    "MARKUP.typ"@
}

/// Everything a typesetting engine may ask for during a pass: the font
/// catalogue, the registered sources, the file cache, and which source is
/// the document being compiled.
pub struct Environment {
    pub cache: PathCache,
    pub sources: SourceRegistry,
    pub fonts: FontIndex,
    pub main: usize,
}

impl Environment {
    pub open spec fn wf(&self) -> bool {
        self.cache.wf() && self.fonts.wf()
    }

    /// An environment over a font catalogue, with no source registered yet.
    pub fn new(fonts: FontIndex) -> (r: Environment)
        requires
            fonts.wf(),
        ensures
            r.wf(),
            r.cache.is_empty(),
            r.sources@.len() == 0,
            r.fonts == fonts,
    {
        Environment { cache: PathCache::new(), sources: SourceRegistry::new(), fonts, main: 0 }
    }

    /// Starts a pass over `markup`: forgets the file cache, registers the
    /// markup under the main path and makes it the main document. Sources of
    /// earlier passes stay registered.
    pub fn begin_pass(&mut self, markup: String) -> (id: usize)
        requires
            old(self).wf(),
            old(self).sources@.len() < usize::MAX,
        ensures
            final(self).wf(),
            final(self).cache.is_empty(),
            id == old(self).sources@.len(),
            final(self).main == id,
            final(self).sources@ == old(self).sources@.push((main_path(), markup@)),
            final(self).fonts == old(self).fonts,
    {
        self.cache.reset();
        let id = self.sources.register("MARKUP.typ".to_owned(), markup);
        self.main = id;
        id
    }

    /// Records the outcome of reading the file with hash `h` as a source:
    /// its text is registered under `path` and the new id recorded for every
    /// path that reaches the file; a failure is recorded as it is. If an
    /// outcome was recorded before, that one stays and nothing is registered.
    pub fn record_source_text(&mut self, h: PathHash, path: String, text: Result<String, FileError>)
        -> (r: Result<usize, FileError>)
        requires
            old(self).wf(),
        ensures
            final(self).wf(),
            final(self).fonts == old(self).fonts,
            final(self).main == old(self).main,
            final(self).cache.source_of(h) == Some(r),
            forall|g: PathHash| g != h ==> #[trigger] final(self).cache.source_of(g)
                == old(self).cache.source_of(g),
            forall|g: PathHash| #[trigger] final(self).cache.buffer_of(g)
                == old(self).cache.buffer_of(g),
            forall|p: Seq<char>| #[trigger] final(self).cache.identity_of(p)
                == old(self).cache.identity_of(p),
            match old(self).cache.source_of(h) {
                Some(prev) => r == prev && final(self).sources@ == old(self).sources@,
                None => match text {
                    Ok(t) => if old(self).sources@.len() < usize::MAX {
                        r == Ok::<usize, FileError>(old(self).sources@.len() as usize)
                            && final(self).sources@ == old(self).sources@.push((path@, t@))
                    } else {
                        r == Err::<usize, FileError>(FileError::Other) && final(self).sources@
                            == old(self).sources@
                    },
                    Err(e) => r == Err::<usize, FileError>(e) && final(self).sources@
                        == old(self).sources@,
                },
            },
    {
        if let Some(prev) = self.cache.recorded_source(h) {
            return prev;
        }
        let r = match text {
            Ok(t) => if self.sources.len() < usize::MAX {
                Ok(self.sources.register(path, t))
            } else {
                Err(FileError::Other)
            },
            Err(e) => Err(e),
        };
        self.cache.record_source(h, r);
        r
    }

    /// The source with the given id.
    pub fn source(&self, id: usize) -> (r: Result<&SourceEntry, FileError>)
        ensures
            match r {
                Ok(e) => id < self.sources@.len() && (e.path@, e.text@) == self.sources@[id as int],
                Err(e) => id >= self.sources@.len() && e == FileError::NotFound,
            },
    {
        self.sources.get(id)
    }

    /// The font at catalogue index `index`, as far as it was loaded; an
    /// index past the catalogue finds nothing.
    pub fn font(&self, index: usize) -> (r: FontLookup)
        requires
            self.wf(),
        ensures
            index >= self.fonts.faces().len() <==> r is Missing,
            index < self.fonts.faces().len() ==> match self.fonts.loaded(index as int) {
                None => r matches FontLookup::Unloaded { path, face } && (path@, face)
                    == self.fonts.faces()[index as int],
                Some(f) => r == FontLookup::Loaded(f),
            },
    {
        self.fonts.font(index)
    }

    /// Loads the font at `index` from `data`, the outcome of reading its
    /// file, unless it was loaded before; an index past the catalogue gives
    /// no font and changes nothing.
    pub fn load_font(&mut self, index: usize, data: Result<Vec<u8>, FileError>) -> (r: Option<Font>)
        requires
            old(self).wf(),
        ensures
            final(self).wf(),
            final(self).fonts.faces() == old(self).fonts.faces(),
            index >= old(self).fonts.faces().len() ==> r is None && final(self).fonts == old(self).fonts,
            index < old(self).fonts.faces().len() ==> final(self).fonts.loaded(index as int) == Some(r),
            index < old(self).fonts.faces().len() ==> match old(self).fonts.loaded(index as int) {
                Some(f) => r == f,
                None => r is Some <==> (data matches Ok(d) && crate::fonts::font_parses(
                    d@,
                    old(self).fonts.faces()[index as int].1,
                )),
            },
    {
        if index >= self.fonts.len() {
            return None;
        }
        self.fonts.load(index, data)
    }
}

/// Each pass sees its own markup as the main document: when `e1` is `e0`
/// after a pass begun over `m1`, and `e2` is `e1` after a pass begun over
/// `m2`, the second main id is not the first, the main document of `e2` is
/// `m2`, and the first id still holds `m1`.
pub proof fn lemma_pass_sees_own_markup(
    e0: Environment,
    e1: Environment,
    e2: Environment,
    m1: Seq<char>,
    m2: Seq<char>,
)
    requires
        e1.main == e0.sources@.len(),
        e1.sources@ == e0.sources@.push((main_path(), m1)),
        e2.main == e1.sources@.len(),
        e2.sources@ == e1.sources@.push((main_path(), m2)),
    ensures
        e1.main < e2.main,
        e2.sources@[e2.main as int] == (main_path(), m2),
        e2.sources@[e1.main as int] == (main_path(), m1),
{
}

} // verus!
