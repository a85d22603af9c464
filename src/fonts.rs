use crate::error::FileError;
use typst::foundations::Bytes;
use typst::text::{Font, FontInfo};
use vstd::prelude::*;

verus! {

#[verifier::external_type_specification]
#[verifier::external_body]
pub struct ExFont(Font);

#[verifier::external_type_specification]
#[verifier::external_body]
pub struct ExFontInfo(FontInfo);

/// Relies on the `Clone` that typst derives for `Font`: it clones the shared
/// pointer to one parsed face, so the copy is the same font.
pub assume_specification[ <Font as Clone>::clone ](f: &Font) -> (r: Font)
    ensures
        r == *f,
;

/// How many faces of the font data `FontInfo::iter` yields metadata for.
pub uninterp spec fn face_count(data: Seq<u8>) -> nat;

/// Whether `Font::new` parses face `face` of the font data.
pub uninterp spec fn font_parses(data: Seq<u8>, face: u32) -> bool;

/// Relies on typst's `FontInfo::iter`: the metadata of each face of the data
/// that parses, in face order. Their number depends on the data alone, and
/// is at most the collection's face count, a `u32`.
#[verifier::external_body]
fn face_infos(data: &[u8]) -> (r: Vec<FontInfo>)
    ensures
        r@.len() == face_count(data@),
        r@.len() <= u32::MAX,
{
    FontInfo::iter(data).collect()
}

/// Relies on typst's `Font::new`: parses face `face` of the data, which
/// succeeds or not depending on the data and the face index alone.
#[verifier::external_body]
fn parse_font(data: Vec<u8>, face: u32) -> (r: Option<Font>)
    ensures
        r is Some == font_parses(data@, face),
{
    Font::new(Bytes::from(data), face)
}

/// Whether the ASCII byte `b` is the lowercase letter `lower` or its
/// uppercase form.
pub open spec fn same_letter(b: u8, lower: u8) -> bool {
    b == lower || b as int + 32 == lower as int
}

/// Whether a file extension names a font container: `ttf`, `otf`, `ttc` or
/// `otc` (bytes 116 116 102, 111 116 102, 116 116 99, 111 116 99), in any case.
pub open spec fn font_extension(ext: Seq<u8>) -> bool {
    &&& ext.len() == 3
    &&& (same_letter(ext[0], 116) || same_letter(ext[0], 111))
    &&& same_letter(ext[1], 116)
    &&& (same_letter(ext[2], 102) || same_letter(ext[2], 99))
}

fn is_letter(b: u8, lower: u8) -> (r: bool)
    requires
        lower >= 97,
    ensures
        r == same_letter(b, lower),
{
    b == lower || b == lower - 32
}

/// Whether a file with the extension `ext` is a font container to index.
pub fn is_font_extension(ext: &[u8]) -> (r: bool)
    ensures
        r == font_extension(ext@),
{
    if ext.len() != 3 {
        return false;
    }
    (is_letter(ext[0], 116) || is_letter(ext[0], 111)) && is_letter(ext[1], 116) && (is_letter(
        ext[2],
        102,
    ) || is_letter(ext[2], 99))
}

/// The faces that indexing a file at `path` with `n` parsed faces adds to the
/// catalogue: one per face, in face order.
pub open spec fn file_faces(path: Seq<char>, n: nat) -> Seq<(Seq<char>, u32)> {
    Seq::new(n, |i: int| (path, i as u32))
}

/// Where a font lives, and the font once it was loaded.
pub struct FontSlot {
    pub path: String,
    pub index: u32,
    pub font: Option<Option<Font>>,
}

/// What a request for a font found.
pub enum FontLookup {
    /// No font has that index.
    Missing,
    /// The font has not been loaded: it is face `face` of the file at `path`.
    Unloaded { path: String, face: u32 },
    /// The outcome of the load, a font or none.
    Loaded(Option<Font>),
}

/// The catalogue of font faces found on disk, each with its metadata and the
/// slot that loads it on demand, index for index.
pub struct FontIndex {
    infos: Vec<FontInfo>,
    slots: Vec<FontSlot>,
}

impl FontIndex {
    /// The metadata and the slots are aligned.
    pub closed spec fn wf(&self) -> bool {
        self.infos@.len() == self.slots@.len()
    }

    /// The file and face index of each entry of the catalogue.
    pub closed spec fn faces(&self) -> Seq<(Seq<char>, u32)> {
        self.slots@.map_values(|s: FontSlot| (s.path@, s.index))
    }

    /// The outcome of loading entry `i`, if it was loaded.
    pub closed spec fn loaded(&self, i: int) -> Option<Option<Font>> {
        self.slots@[i].font
    }

    /// An empty catalogue.
    pub fn new() -> (r: FontIndex)
        ensures
            r.wf(),
            r.faces() == Seq::<(Seq<char>, u32)>::empty(),
    {
        let r = FontIndex { infos: Vec::new(), slots: Vec::new() };
        assert(r.faces() =~= Seq::<(Seq<char>, u32)>::empty());
        r
    }

    /// How many faces the catalogue holds.
    pub fn len(&self) -> (r: usize)
        requires
            self.wf(),
        ensures
            r == self.faces().len(),
    {
        self.slots.len()
    }

    /// The metadata of the faces, in catalogue order.
    pub fn infos(&self) -> (r: &Vec<FontInfo>)
        requires
            self.wf(),
        ensures
            r@.len() == self.faces().len(),
    {
        &self.infos
    }
    /// Indexes the font file at `path`, whose contents are `data`: appends
    /// one entry per face that parses, in face order, each with its metadata
    /// and an unloaded slot. A catalogue too long to grow stays as it is.
    pub fn search_file(&mut self, path: &String, data: &[u8])
        requires
            old(self).wf(),
        ensures
            final(self).wf(),
            final(self).faces() == if old(self).faces().len() + face_count(data@) <= usize::MAX {
                old(self).faces() + file_faces(path@, face_count(data@))
            } else {
                old(self).faces()
            },
            forall|i: int|
                0 <= i < old(self).faces().len() ==> #[trigger] final(self).loaded(i) == old(
                    self,
                ).loaded(i),
            forall|i: int|
                old(self).faces().len() <= i < final(self).faces().len()
                    ==> #[trigger] final(self).loaded(i) is None,
    {
        let mut infos = face_infos(data);
        let n = infos.len();
        if self.slots.len() > usize::MAX - n {
            return;
        }
        let ghost start = self.faces();
        let ghost base = self.slots@.len();
        self.infos.append(&mut infos);
        let mut i: usize = 0;
        while i < n
            invariant
                n == face_count(data@),
                n <= u32::MAX,
                base + n <= usize::MAX,
                i <= n,
                self.slots@.len() == base + i,
                self.infos@.len() == base + n,
                start.len() == base,
                base == old(self).slots@.len(),
                self.faces() =~= start + file_faces(path@, i as nat),
                forall|j: int| 0 <= j < base ==> #[trigger] self.slots@[j] == old(self).slots@[j],
                forall|j: int| base <= j < self.slots@.len() ==> #[trigger] self.slots@[j].font is None,
            decreases n - i,
        {
            let ghost before = self.faces();
            let p = path.clone();
            self.slots.push(FontSlot { path: p, index: i as u32, font: None });
            assert(self.faces() =~= before.push((path@, i as u32)));
            assert(file_faces(path@, (i + 1) as nat) =~= file_faces(path@, i as nat).push(
                (path@, i as u32),
            ));
            i = i + 1;
            assert(self.faces() =~= start + file_faces(path@, i as nat));
        }
    }

    /// The font at catalogue index `index`, as far as it was loaded.
    pub fn font(&self, index: usize) -> (r: FontLookup)
        requires
            self.wf(),
        ensures
            index >= self.faces().len() <==> r is Missing,
            index < self.faces().len() ==> match self.loaded(index as int) {
                None => r matches FontLookup::Unloaded { path, face } && (path@, face)
                    == self.faces()[index as int],
                Some(f) => r == FontLookup::Loaded(f),
            },
    {
        if index >= self.slots.len() {
            return FontLookup::Missing;
        }
        let slot = &self.slots[index];
        match &slot.font {
            None => FontLookup::Unloaded { path: slot.path.clone(), face: slot.index },
            Some(None) => FontLookup::Loaded(None),
            Some(Some(f)) => FontLookup::Loaded(Some(f.clone())),
        }
    }

    /// Loads entry `index` from `data`, the outcome of reading its file,
    /// unless it was loaded before: the first outcome stays and is returned.
    pub fn load(&mut self, index: usize, data: Result<Vec<u8>, FileError>) -> (r: Option<Font>)
        requires
            old(self).wf(),
            index < old(self).faces().len(),
        ensures
            final(self).wf(),
            final(self).faces() == old(self).faces(),
            final(self).loaded(index as int) == Some(r),
            match old(self).loaded(index as int) {
                Some(f) => r == f,
                None => r is Some <==> (data matches Ok(d) && font_parses(
                    d@,
                    old(self).faces()[index as int].1,
                )),
            },
            forall|i: int|
                0 <= i < old(self).faces().len() && i != index ==> #[trigger] final(self).loaded(i)
                    == old(self).loaded(i),
    {
        match &self.slots[index].font {
            Some(None) => return None,
            Some(Some(f)) => return Some(f.clone()),
            None => {},
        }
        let face = self.slots[index].index;
        let font = match data {
            Ok(d) => parse_font(d, face),
            Err(_) => None,
        };
        let stored = match &font {
            Some(f) => Some(f.clone()),
            None => None,
        };
        let path = self.slots[index].path.clone();
        self.slots.set(index, FontSlot { path, index: face, font: Some(stored) });
        assert(self.faces() =~= old(self).faces());
        font
    }
}

} // verus!
