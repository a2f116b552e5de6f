//! Fonts: the table of the font faces that the glyph renderer draws from. The bytes of all
//! font files are kept one after the other; each face is a range of them and the index of
//! the face within its file, and each face's glyph outlines start at an offset into the
//! renderer's list of outlines.

use vstd::prelude::*;

verus! {

#[verifier::external_type_specification]
#[verifier::external_body]
pub struct ExIoError(std::io::Error);

/// What can go wrong with fonts.
#[derive(Debug)]
pub enum Error {
    FileRead(std::io::Error),
    CannotCreateFontFace,
    InvalidCodepointSplit,
    InvalidCodepointParse,
    InvalidCodepointValue,
    NoGlyphIndex(char),
    InvalidFont(usize),
    FontIndexAlreadyExists,
    GlyphNotFoundInFonts(char),
    GlyphOutlineError(char),
    NoGlyphIdInOutlines(u32),
}

/// The units per em of the font face at `face_index` in `data`, where the data holds such a
/// face: what `rustybuzz::Face::from_slice` parses.
pub uninterp spec fn face_units_per_em(data: Seq<u8>, face_index: u32) -> Option<i32>;

/// `rustybuzz::Face::from_slice`, of which the face's units per em are kept: `None` where
/// the data holds no face at `face_index`. The parse is a function of the bytes and the
/// index; what it finds is left to the name `face_units_per_em`.
#[verifier::external_body]
fn parse_face_units_per_em(data: &[u8], face_index: u32) -> (r: Option<i32>)
    ensures
        r == face_units_per_em(data@, face_index),
{
    match rustybuzz::Face::from_slice(data, face_index) {
        Some(face) => Some(face.units_per_em()),
        None => None,
    }
}

/// Whether `data` holds a font face at `face_index`, as `rustybuzz::Face::from_slice`
/// parses it.
pub fn check_font_face(data: &[u8], face_index: u32) -> (r: Result<(), Error>)
    ensures
        r is Ok <==> face_units_per_em(data@, face_index) is Some,
        r is Err ==> r matches Err(Error::CannotCreateFontFace),
{
    match parse_face_units_per_em(data, face_index) {
        Some(_) => Ok(()),
        None => Err(Error::CannotCreateFontFace),
    }
}

/// A font face of the table.
#[derive(Debug, Clone, Copy, PartialEq, Eq, Structural)]
pub struct FontInfo {
    pub data_start_index: usize,
    pub data_end_index: usize,
    pub index: u32,
    pub units_per_em: i32,
    pub outline_offset: usize,
}

/// The font faces of a renderer and the bytes of their files.
pub struct FontTable {
    font_data: Vec<u8>,
    font_infos: Vec<FontInfo>,
}

pub struct FontTableView {
    pub data: Seq<u8>,
    pub infos: Seq<FontInfo>,
}

/// Each face is a range of the bytes that holds a face at its index, with the units per em
/// that the face gives.
pub open spec fn font_table_wf(v: FontTableView) -> bool {
    forall|i: int|
        0 <= i < v.infos.len() ==> {
            let fi = #[trigger] v.infos[i];
            &&& fi.data_start_index <= fi.data_end_index <= v.data.len()
            &&& face_units_per_em(
                v.data.subrange(fi.data_start_index as int, fi.data_end_index as int),
                fi.index,
            ) == Some(fi.units_per_em)
        }
}

/// The same face of the same file is in the table twice.
pub open spec fn same_face(a: FontInfo, b: FontInfo) -> bool {
    a.data_start_index == b.data_start_index && a.data_end_index == b.data_end_index && a.index
        == b.index
}

impl FontTable {
    pub closed spec fn view(&self) -> FontTableView {
        FontTableView { data: self.font_data@, infos: self.font_infos@ }
    }

    #[verifier::type_invariant]
    spec fn inv(self) -> bool {
        font_table_wf(self.view())
    }

    /// The number of bytes of all font files of the table.
    pub fn font_data_len(&self) -> (r: usize)
        ensures
            r == self.view().data.len(),
    {
        self.font_data.len()
    }

    /// A table without fonts.
    pub fn new() -> (r: Self)
        ensures
            r.view().data == Seq::<u8>::empty(),
            r.view().infos == Seq::<FontInfo>::empty(),
            font_table_wf(r.view()),
    {
        FontTable { font_data: Vec::new(), font_infos: Vec::new() }
    }

    /// A table of the face at `font_index` of one font file; the face's outlines start at 0.
    pub fn new_from_bytes(font_data: Vec<u8>, font_index: u32) -> (r: Result<Self, Error>)
        ensures
            face_units_per_em(font_data@, font_index) is None <==> r is Err,
            r is Err ==> r matches Err(Error::CannotCreateFontFace),
            r matches Ok(t) ==> t.view().data == font_data@ && t.view().infos == seq![
                FontInfo {
                    data_start_index: 0,
                    data_end_index: font_data@.len() as usize,
                    index: font_index,
                    units_per_em: face_units_per_em(font_data@, font_index).unwrap(),
                    outline_offset: 0,
                },
            ],
            r matches Ok(t) ==> font_table_wf(t.view()),
    {
        let units_per_em: i32 = match parse_face_units_per_em(font_data.as_slice(), font_index) {
            Some(u) => u,
            None => {
                return Err(Error::CannotCreateFontFace);
            },
        };
        let len: usize = font_data.len();
        let mut font_infos: Vec<FontInfo> = Vec::new();
        font_infos.push(
            FontInfo {
                data_start_index: 0,
                data_end_index: len,
                index: font_index,
                units_per_em,
                outline_offset: 0,
            },
        );
        assert(font_data@.subrange(0, len as int) =~= font_data@);
        let r = FontTable { font_data, font_infos };
        Ok(r)
    }

    /// Adds the face at `font_index` of a font file; its outlines start at `outline_offset`,
    /// the number of outlines the renderer holds.
    pub fn add_new_font_from_bytes(
        &mut self,
        font_bytes: &[u8],
        font_index: u32,
        outline_offset: usize,
    ) -> (r: Result<(), Error>)
        requires
            old(self).view().data.len() + font_bytes@.len() <= usize::MAX,
        ensures
            font_table_wf(final(self).view()),
            face_units_per_em(font_bytes@, font_index) is None <==> r is Err,
            r is Err ==> (r matches Err(Error::CannotCreateFontFace) && final(self).view()
                == old(self).view()),
            r is Ok ==> final(self).view().data == old(self).view().data + font_bytes@
                && final(self).view().infos == old(self).view().infos.push(
                FontInfo {
                    data_start_index: old(self).view().data.len() as usize,
                    data_end_index: (old(self).view().data.len() + font_bytes@.len()) as usize,
                    index: font_index,
                    units_per_em: face_units_per_em(font_bytes@, font_index).unwrap(),
                    outline_offset,
                },
            ),
    {
        proof {
            use_type_invariant(&*self);
        }
        let font_data_offset: usize = self.font_data.len();
        let units_per_em: i32 = match parse_face_units_per_em(font_bytes, font_index) {
            Some(u) => u,
            None => {
                return Err(Error::CannotCreateFontFace);
            },
        };
        let ghost old_view = self.view();
        let mut table = FontTable::new();
        std::mem::swap(self, &mut table);
        let FontTable { mut font_data, mut font_infos } = table;
        let ghost old_data = font_data@;
        font_data.extend_from_slice(font_bytes);
        assert(font_data@ =~= old_data + font_bytes@);
        let info = FontInfo {
            data_start_index: font_data_offset,
            data_end_index: font_data.len(),
            index: font_index,
            units_per_em,
            outline_offset,
        };
        font_infos.push(info);
        let ghost v = FontTableView { data: font_data@, infos: font_infos@ };
        proof {
            assert forall|i: int| 0 <= i < v.infos.len() implies {
                let fi = #[trigger] v.infos[i];
                &&& fi.data_start_index <= fi.data_end_index <= v.data.len()
                &&& face_units_per_em(
                    v.data.subrange(fi.data_start_index as int, fi.data_end_index as int),
                    fi.index,
                ) == Some(fi.units_per_em)
            } by {
                let fi = v.infos[i];
                if i < v.infos.len() - 1 {
                    assert(old_view.infos[i] == fi);
                    assert(v.data.subrange(fi.data_start_index as int, fi.data_end_index as int)
                        =~= old_data.subrange(
                        fi.data_start_index as int,
                        fi.data_end_index as int,
                    ));
                } else {
                    assert(v.data.subrange(fi.data_start_index as int, fi.data_end_index as int)
                        =~= font_bytes@);
                }
            }
        }
        *self = FontTable { font_data, font_infos };
        Ok(())
    }

    /// Checks that the table has a face numbered `font`.
    pub fn does_font_exist(&self, font: usize) -> (r: Result<(), Error>)
        ensures
            r is Ok <==> font < self.view().infos.len(),
            r is Err ==> (r matches Err(Error::InvalidFont(n)) && n == self.view().infos.len()),
    {
        if font < self.font_infos.len() {
            Ok(())
        } else {
            Err(Error::InvalidFont(self.font_infos.len()))
        }
    }

    /// Adds the face at `font_index` of the file of face `font`, unless the table already
    /// has a face that is the same as face `font`; its outlines start at `outline_offset`.
    /// Since face `font` is itself such a face, a face that exists always gives
    /// `FontIndexAlreadyExists`.
    pub fn add_new_font_index(&mut self, font: usize, font_index: u32, outline_offset: usize) -> (r:
        Result<(), Error>)
        ensures
            font_table_wf(final(self).view()),
            final(self).view() == old(self).view(),
            font >= old(self).view().infos.len() ==> (r matches Err(Error::InvalidFont(n)) && n
                == old(self).view().infos.len()),
            font < old(self).view().infos.len() ==> r matches Err(Error::FontIndexAlreadyExists),
    {
        proof {
            use_type_invariant(&*self);
        }
        match self.does_font_exist(font) {
            Ok(()) => {},
            Err(e) => {
                return Err(e);
            },
        }
        let font_info: FontInfo = self.font_infos[font];
        let ghost v0 = self.view();
        let mut k: usize = 0;
        while k < self.font_infos.len()
            invariant
                self.view() == v0,
                font_table_wf(v0),
                k <= self.font_infos@.len(),
                font < self.font_infos@.len(),
                font_info == self.font_infos@[font as int],
                forall|j: int| 0 <= j < k ==> !same_face(#[trigger] self.font_infos@[j], font_info),
            decreases self.font_infos@.len() - k,
        {
            let fi: FontInfo = self.font_infos[k];
            if fi.data_start_index == font_info.data_start_index && fi.data_end_index
                == font_info.data_end_index && fi.index == font_info.index {
                return Err(Error::FontIndexAlreadyExists);
            }
            k += 1;
        }
        assert(same_face(self.font_infos@[font as int], font_info));
        let s: &[u8] = self.font_data.as_slice();
        let data: &[u8] = &s[font_info.data_start_index..font_info.data_end_index];
        let units_per_em: i32 = match parse_face_units_per_em(data, font_index) {
            Some(u) => u,
            None => {
                return Err(Error::CannotCreateFontFace);
            },
        };
        let mut table = FontTable::new();
        std::mem::swap(self, &mut table);
        let FontTable { font_data, mut font_infos } = table;
        font_infos.push(
            FontInfo {
                data_start_index: font_info.data_start_index,
                data_end_index: font_info.data_end_index,
                index: font_index,
                units_per_em,
                outline_offset,
            },
        );
        *self = FontTable { font_data, font_infos };
        Ok(())
    }

    /// The bytes and the face index of face `font`, from which its font face is parsed.
    pub fn get_font_data(&self, font: usize) -> (r: Result<(&[u8], u32), Error>)
        ensures
            r is Ok <==> font < self.view().infos.len(),
            r is Err ==> (r matches Err(Error::InvalidFont(n)) && n == self.view().infos.len()),
            r matches Ok(p) ==> p.0@ == self.view().data.subrange(
                self.view().infos[font as int].data_start_index as int,
                self.view().infos[font as int].data_end_index as int,
            ) && p.1 == self.view().infos[font as int].index,
            r matches Ok(p) ==> face_units_per_em(p.0@, p.1) is Some,
    {
        proof {
            use_type_invariant(self);
        }
        match self.does_font_exist(font) {
            Ok(()) => {},
            Err(e) => {
                return Err(e);
            },
        }
        let fi: FontInfo = self.font_infos[font];
        assert(self.view().infos[font as int] == fi);
        let s: &[u8] = self.font_data.as_slice();
        let data: &[u8] = &s[fi.data_start_index..fi.data_end_index];
        Ok((data, fi.index))
    }

    /// The faces of the table.
    pub fn font_infos(&self) -> (r: &Vec<FontInfo>)
        ensures
            r@ == self.view().infos,
    {
        &self.font_infos
    }

    /// Moves the outlines of faces `font` on by `count`, after `count` outlines were inserted
    /// before them.
    pub fn shift_outline_offsets(&mut self, font: usize, count: usize)
        requires
            forall|i: int|
                font <= i < old(self).view().infos.len() ==> (#[trigger] old(
                    self,
                ).view().infos[i]).outline_offset + count <= usize::MAX,
        ensures
            final(self).view().data == old(self).view().data,
            final(self).view().infos.len() == old(self).view().infos.len(),
            forall|i: int|
                0 <= i < old(self).view().infos.len() ==> #[trigger] final(self).view().infos[i]
                    == (if i < font {
                    old(self).view().infos[i]
                } else {
                    FontInfo {
                        outline_offset: (old(self).view().infos[i].outline_offset + count) as usize,
                        ..old(self).view().infos[i]
                    }
                }),
    {
        proof {
            use_type_invariant(&*self);
        }
        let ghost old_view = self.view();
        let mut table = FontTable::new();
        std::mem::swap(self, &mut table);
        let FontTable { font_data, mut font_infos } = table;
        let mut k: usize = font;
        let ghost old_infos = font_infos@;
        assert forall|i: int| font <= i < old_infos.len() implies (#[trigger] old_infos[i]).outline_offset
            + count <= usize::MAX by {
            assert(old_view.infos[i] == old_infos[i]);
        }
        while k < font_infos.len()
            invariant
                font <= k,
                font_infos@.len() == old_infos.len(),
                forall|i: int|
                    font <= i < old_infos.len() ==> (#[trigger] old_infos[i]).outline_offset + count
                        <= usize::MAX,
                forall|i: int|
                    0 <= i < old_infos.len() ==> #[trigger] font_infos@[i] == (if i < font || i >= k {
                        old_infos[i]
                    } else {
                        FontInfo {
                            outline_offset: (old_infos[i].outline_offset + count) as usize,
                            ..old_infos[i]
                        }
                    }),
            decreases font_infos@.len() - k,
        {
            let fi: FontInfo = font_infos[k];
            let moved = FontInfo { outline_offset: fi.outline_offset + count, ..fi };
            font_infos.set(k, moved);
            k += 1;
        }
        proof {
            assert forall|i: int| 0 <= i < font_infos@.len() implies {
                let fi = #[trigger] font_infos@[i];
                &&& fi.data_start_index <= fi.data_end_index <= font_data@.len()
                &&& face_units_per_em(
                    font_data@.subrange(fi.data_start_index as int, fi.data_end_index as int),
                    fi.index,
                ) == Some(fi.units_per_em)
            } by {
                assert(old_view.infos[i] == old_infos[i]);
            }
        }
        *self = FontTable { font_data, font_infos };
    }
}

/// The bytes of a face that was added are read back as they were given, with the face's
/// index: `get_font_data` of the new face gives what `add_new_font_from_bytes` took.
pub proof fn law_added_font_reads_back(
    before: FontTableView,
    after: FontTableView,
    font_bytes: Seq<u8>,
    font_index: u32,
    outline_offset: usize,
)
    requires
        before.data.len() + font_bytes.len() <= usize::MAX,
        after.data == before.data + font_bytes,
        after.infos == before.infos.push(
            FontInfo {
                data_start_index: before.data.len() as usize,
                data_end_index: (before.data.len() + font_bytes.len()) as usize,
                index: font_index,
                units_per_em: face_units_per_em(font_bytes, font_index).unwrap(),
                outline_offset,
            },
        ),
    ensures
        ({
            let fi = after.infos[before.infos.len() as int];
            &&& after.data.subrange(fi.data_start_index as int, fi.data_end_index as int)
                == font_bytes
            &&& fi.index == font_index
        }),
        forall|i: int| 0 <= i < before.infos.len() ==> after.infos[i] == before.infos[i],
{
    let fi = after.infos[before.infos.len() as int];
    assert(after.data.subrange(fi.data_start_index as int, fi.data_end_index as int) =~= font_bytes);
}

/// The number of rays per outline, as a power of two, is at most 3.
pub fn clamp_rays_per_outline(rays_per_outline_po2: u8) -> (r: u8)
    ensures
        r == (if rays_per_outline_po2 > 3 { 3 } else { rays_per_outline_po2 }),
{
    if rays_per_outline_po2 > 3 {
        3
    } else {
        rays_per_outline_po2
    }
}

} // verus!
