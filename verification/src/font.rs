//! Loaded fonts: parsing font files that hold exactly one font.

use vstd::prelude::*;
use vstd::string::StringExecFns;
use rusttype::Font as Face;
use crate::query::{query_for, text_of, to_uppercase, upper_of, FontQuery};

verus! {

/// `rusttype::Font`: a parsed font face. Nothing inside it is visible here.
#[verifier::external_type_specification]
#[verifier::external_body]
pub struct ExFace<'a>(Face<'a>);

/// `Clone::clone` of `rusttype::Font`: the clone shares the parsed data of the
/// font it was made from and is equal to it.
pub assume_specification<'a>[ <Face<'a> as Clone>::clone ](face: &Face<'a>) -> (copy: Face<'a>)
    ensures
        copy == *face,
;

/// Whether `rusttype::Font::try_from_bytes` accepts `data` as a font face.
pub uninterp spec fn slice_holds_face(data: Seq<u8>) -> bool;

/// Whether `rusttype::Font::try_from_vec` accepts `data` as a font face.
pub uninterp spec fn vec_holds_face(data: Seq<u8>) -> bool;

/// `rusttype::Font::try_from_bytes`: parses the first face of the borrowed
/// data and returns `None` for data the parser does not accept. Acceptance
/// depends on the bytes alone.
#[verifier::external_body]
fn face_from_slice(data: &'static [u8]) -> (face: Option<Face<'static>>)
    ensures
        face is Some <==> slice_holds_face(data@),
{
    Face::try_from_bytes(data)
}

/// `rusttype::Font::try_from_vec`: parses the first face of the owned data
/// and returns `None` for data the parser does not accept. Acceptance depends
/// on the bytes alone.
#[verifier::external_body]
fn face_from_vec(data: Vec<u8>) -> (face: Option<Face<'static>>)
    ensures
        face is Some <==> vec_holds_face(data@),
{
    Face::try_from_vec(data)
}

/// The data opens with the tag of a font collection, `ttcf`.
pub open spec fn is_collection(data: Seq<u8>) -> bool {
    &&& data.len() >= 4
    &&& data[0] == 0x74
    &&& data[1] == 0x74
    &&& data[2] == 0x63
    &&& data[3] == 0x66
}

/// The big-endian 32-bit number at `at`.
pub open spec fn be_u32(data: Seq<u8>, at: int) -> int {
    data[at] * 0x100_0000 + data[at + 1] * 0x1_0000 + data[at + 2] * 0x100 + data[at + 3]
}

/// How many fonts the data announces: one for a plain font file, the count in
/// the header for a collection, none for a collection whose header is cut
/// short.
pub open spec fn font_count(data: Seq<u8>) -> int {
    if !is_collection(data) {
        1
    } else if data.len() < 12 {
        0
    } else {
        be_u32(data, 8)
    }
}

/// Reads how many fonts the data announces.
pub fn announced_fonts(data: &[u8]) -> (count: u32)
    ensures
        count == font_count(data@),
{
    let collection: bool = data.len() >= 4 && data[0] == 0x74 && data[1] == 0x74 && data[2] == 0x63
        && data[3] == 0x66;
    if !collection {
        1
    } else if data.len() < 12 {
        0
    } else {
        let b0: u32 = data[8] as u32;
        let b1: u32 = data[9] as u32;
        let b2: u32 = data[10] as u32;
        let b3: u32 = data[11] as u32;
        b0 * 0x100_0000 + b1 * 0x1_0000 + b2 * 0x100 + b3
    }
}

/// The message of every parse failure.
pub const PARSE_FAILURE: &'static str = "error constructing a Font from bytes";

/// A loaded font. It is never changed after it was parsed; a clone shares the
/// parsed data.
#[derive(Clone)]
pub struct Font {
    inner: Face<'static>,
    source: Ghost<Seq<u8>>,
}

impl Font {
    /// The bytes this font was parsed from.
    pub closed spec fn source(&self) -> Seq<u8> {
        self.source@
    }

    /// The parsed face.
    pub closed spec fn face(&self) -> Face<'static> {
        self.inner
    }

    /// The parsed face, for the rasteriser.
    pub fn inner(&self) -> (face: &Face<'static>)
        ensures
            *face == self.face(),
    {
        &self.inner
    }

    /// Loads a font from borrowed data. The data must announce exactly one
    /// font and be accepted by the parser; a collection of none or of several
    /// fonts is rejected.
    pub fn from_data(data: &'static [u8]) -> (loaded: Result<Font, String>)
        ensures
            loaded is Ok <==> font_count(data@) == 1 && slice_holds_face(data@),
            loaded matches Ok(font) ==> font.source() == data@,
            loaded matches Err(reason) ==> reason@ == PARSE_FAILURE@,
            is_collection(data@) && font_count(data@) != 1 ==> loaded is Err,
    {
        if announced_fonts(data) != 1 {
            return Err(String::from_str(PARSE_FAILURE));
        }
        match face_from_slice(data) {
            Some(face) => Ok(Font { inner: face, source: Ghost(data@) }),
            None => Err(String::from_str(PARSE_FAILURE)),
        }
    }

    /// Loads a font from owned data, under the same rules as
    /// [`Font::from_data`].
    pub fn from_vec(data: Vec<u8>) -> (loaded: Result<Font, String>)
        ensures
            loaded is Ok <==> font_count(data@) == 1 && vec_holds_face(data@),
            loaded matches Ok(font) ==> font.source() == data@,
            loaded matches Err(reason) ==> reason@ == PARSE_FAILURE@,
            is_collection(data@) && font_count(data@) != 1 ==> loaded is Err,
    {
        if announced_fonts(data.as_slice()) != 1 {
            return Err(String::from_str(PARSE_FAILURE));
        }
        let ghost source = data@;
        match face_from_vec(data) {
            Some(face) => Ok(Font { inner: face, source: Ghost(source) }),
            None => Err(String::from_str(PARSE_FAILURE)),
        }
    }

    /// Maps a typeface hint, a family name and a style onto a structured
    /// query. Hint and style are compared in upper case.
    pub fn build_fontproperty(
        typeface: Option<&str>,
        family: Option<&str>,
        style: Option<&str>,
    ) -> (query: FontQuery)
        ensures
            query@ == query_for(upper_of(typeface), text_of(family), upper_of(style)),
    {
        let typeface_caps: Option<String> = match typeface {
            Some(t) => Some(to_uppercase(t)),
            None => None,
        };
        let style_caps: Option<String> = match style {
            Some(s) => Some(to_uppercase(s)),
            None => None,
        };
        let typeface_ref: Option<&str> = match &typeface_caps {
            Some(t) => Some(t.as_str()),
            None => None,
        };
        let style_ref: Option<&str> = match &style_caps {
            Some(s) => Some(s.as_str()),
            None => None,
        };
        FontQuery::from_caps(typeface_ref, family, style_ref)
    }
}

} // verus!
