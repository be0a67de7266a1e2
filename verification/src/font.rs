//! Font attributes and the parameter record of logical-font creation.

use vstd::prelude::*;
use crate::ll::types::{c_int, DWORD, HFONT, NULL_HANDLE};
use crate::wchar::ToCU16Str;


verus! {

#[allow(non_camel_case_types)]
#[derive(Clone, Copy, Debug, PartialEq, Eq, Structural)]
pub enum CharSet {
    ANSI_CHARSET,
    DEFAULT_CHARSET,
    SYMBOL_CHARSET,
    SHIFTJIS_CHARSET,
    HANGUL_CHARSET,
    GB2312_CHARSET,
    CHINESEBIG5_CHARSET,
    GREEK_CHARSET,
    TURKISH_CHARSET,
    HEBREW_CHARSET,
    ARABIC_CHARSET,
    BALTIC_CHARSET,
    RUSSIAN_CHARSET,
    THAI_CHARSET,
    EASTEUROPE_CHARSET,
    OEM_CHARSET,
    JOHAB_CHARSET,
    VIETNAMESE_CHARSET,
    MAC_CHARSET,
}

impl CharSet {
    /// The platform's number for this character set.
    pub open spec fn spec_code(self) -> DWORD {
        match self {
            CharSet::ANSI_CHARSET => 0,
            CharSet::DEFAULT_CHARSET => 1,
            CharSet::SYMBOL_CHARSET => 2,
            CharSet::SHIFTJIS_CHARSET => 128,
            CharSet::HANGUL_CHARSET => 129,
            CharSet::GB2312_CHARSET => 134,
            CharSet::CHINESEBIG5_CHARSET => 136,
            CharSet::GREEK_CHARSET => 161,
            CharSet::TURKISH_CHARSET => 162,
            CharSet::HEBREW_CHARSET => 177,
            CharSet::ARABIC_CHARSET => 178,
            CharSet::BALTIC_CHARSET => 186,
            CharSet::RUSSIAN_CHARSET => 204,
            CharSet::THAI_CHARSET => 222,
            CharSet::EASTEUROPE_CHARSET => 238,
            CharSet::OEM_CHARSET => 255,
            CharSet::JOHAB_CHARSET => 130,
            CharSet::VIETNAMESE_CHARSET => 163,
            CharSet::MAC_CHARSET => 77,
        }
    }

    #[verifier::when_used_as_spec(spec_code)]
    pub fn code(self) -> (r: DWORD)
        ensures
            r == self.spec_code(),
    {
        match self {
            CharSet::ANSI_CHARSET => 0,
            CharSet::DEFAULT_CHARSET => 1,
            CharSet::SYMBOL_CHARSET => 2,
            CharSet::SHIFTJIS_CHARSET => 128,
            CharSet::HANGUL_CHARSET => 129,
            CharSet::GB2312_CHARSET => 134,
            CharSet::CHINESEBIG5_CHARSET => 136,
            CharSet::GREEK_CHARSET => 161,
            CharSet::TURKISH_CHARSET => 162,
            CharSet::HEBREW_CHARSET => 177,
            CharSet::ARABIC_CHARSET => 178,
            CharSet::BALTIC_CHARSET => 186,
            CharSet::RUSSIAN_CHARSET => 204,
            CharSet::THAI_CHARSET => 222,
            CharSet::EASTEUROPE_CHARSET => 238,
            CharSet::OEM_CHARSET => 255,
            CharSet::JOHAB_CHARSET => 130,
            CharSet::VIETNAMESE_CHARSET => 163,
            CharSet::MAC_CHARSET => 77,
        }
    }
}

#[allow(non_camel_case_types)]
#[derive(Clone, Copy, Debug, PartialEq, Eq, Structural)]
pub enum OutputPrecision {
    OUT_DEFAULT_PRECIS,
    OUT_STRING_PRECIS,
    OUT_CHARACTER_PRECIS,
    OUT_STROKE_PRECIS,
    OUT_TT_PRECIS,
    OUT_DEVICE_PRECIS,
    OUT_RASTER_PRECIS,
    OUT_TT_ONLY_PRECIS,
    OUT_OUTLINE_PRECIS,
    OUT_PS_ONLY_PRECIS,
}

impl OutputPrecision {
    /// The platform's number for this output precision.
    pub open spec fn spec_code(self) -> DWORD {
        match self {
            OutputPrecision::OUT_DEFAULT_PRECIS => 0,
            OutputPrecision::OUT_STRING_PRECIS => 1,
            OutputPrecision::OUT_CHARACTER_PRECIS => 2,
            OutputPrecision::OUT_STROKE_PRECIS => 3,
            OutputPrecision::OUT_TT_PRECIS => 4,
            OutputPrecision::OUT_DEVICE_PRECIS => 5,
            OutputPrecision::OUT_RASTER_PRECIS => 6,
            OutputPrecision::OUT_TT_ONLY_PRECIS => 7,
            OutputPrecision::OUT_OUTLINE_PRECIS => 8,
            OutputPrecision::OUT_PS_ONLY_PRECIS => 10,
        }
    }

    #[verifier::when_used_as_spec(spec_code)]
    pub fn code(self) -> (r: DWORD)
        ensures
            r == self.spec_code(),
    {
        match self {
            OutputPrecision::OUT_DEFAULT_PRECIS => 0,
            OutputPrecision::OUT_STRING_PRECIS => 1,
            OutputPrecision::OUT_CHARACTER_PRECIS => 2,
            OutputPrecision::OUT_STROKE_PRECIS => 3,
            OutputPrecision::OUT_TT_PRECIS => 4,
            OutputPrecision::OUT_DEVICE_PRECIS => 5,
            OutputPrecision::OUT_RASTER_PRECIS => 6,
            OutputPrecision::OUT_TT_ONLY_PRECIS => 7,
            OutputPrecision::OUT_OUTLINE_PRECIS => 8,
            OutputPrecision::OUT_PS_ONLY_PRECIS => 10,
        }
    }
}

#[allow(non_camel_case_types)]
#[derive(Clone, Copy, Debug, PartialEq, Eq, Structural)]
pub enum ClipPrecision {
    CLIP_DEFAULT_PRECIS,
    CLIP_CHARACTER_PRECIS,
    CLIP_STROKE_PRECIS,
    CLIP_MASK,
    CLIP_LH_ANGLES,
    CLIP_TT_ALWAYS,
    CLIP_EMBEDDED,
}

impl ClipPrecision {
    /// The platform's number for this clipping precision.
    pub open spec fn spec_code(self) -> DWORD {
        match self {
            ClipPrecision::CLIP_DEFAULT_PRECIS => 0,
            ClipPrecision::CLIP_CHARACTER_PRECIS => 1,
            ClipPrecision::CLIP_STROKE_PRECIS => 2,
            ClipPrecision::CLIP_MASK => 15,
            ClipPrecision::CLIP_LH_ANGLES => 16,
            ClipPrecision::CLIP_TT_ALWAYS => 32,
            ClipPrecision::CLIP_EMBEDDED => 128,
        }
    }

    #[verifier::when_used_as_spec(spec_code)]
    pub fn code(self) -> (r: DWORD)
        ensures
            r == self.spec_code(),
    {
        match self {
            ClipPrecision::CLIP_DEFAULT_PRECIS => 0,
            ClipPrecision::CLIP_CHARACTER_PRECIS => 1,
            ClipPrecision::CLIP_STROKE_PRECIS => 2,
            ClipPrecision::CLIP_MASK => 15,
            ClipPrecision::CLIP_LH_ANGLES => 16,
            ClipPrecision::CLIP_TT_ALWAYS => 32,
            ClipPrecision::CLIP_EMBEDDED => 128,
        }
    }
}

#[allow(non_camel_case_types)]
#[derive(Clone, Copy, Debug, PartialEq, Eq, Structural)]
pub enum Quality {
    DEFAULT_QUALITY,
    DRAFT_QUALITY,
    PROOF_QUALITY,
    NONANTIALIASED_QUALITY,
    ANTIALIASED_QUALITY,
    CLEARTYPE_QUALITY,
}

impl Quality {
    /// The platform's number for this output quality.
    pub open spec fn spec_code(self) -> DWORD {
        match self {
            Quality::DEFAULT_QUALITY => 0,
            Quality::DRAFT_QUALITY => 1,
            Quality::PROOF_QUALITY => 2,
            Quality::NONANTIALIASED_QUALITY => 3,
            Quality::ANTIALIASED_QUALITY => 4,
            Quality::CLEARTYPE_QUALITY => 5,
        }
    }

    #[verifier::when_used_as_spec(spec_code)]
    pub fn code(self) -> (r: DWORD)
        ensures
            r == self.spec_code(),
    {
        match self {
            Quality::DEFAULT_QUALITY => 0,
            Quality::DRAFT_QUALITY => 1,
            Quality::PROOF_QUALITY => 2,
            Quality::NONANTIALIASED_QUALITY => 3,
            Quality::ANTIALIASED_QUALITY => 4,
            Quality::CLEARTYPE_QUALITY => 5,
        }
    }
}

#[allow(non_camel_case_types)]
#[derive(Clone, Copy, Debug, PartialEq, Eq, Structural)]
pub enum Pitch {
    DEFAULT_PITCH,
    FIXED_PITCH,
    VARIABLE_PITCH,
}

impl Pitch {
    /// The platform's number for this pitch; it fills the two low bits.
    pub open spec fn spec_code(self) -> DWORD {
        match self {
            Pitch::DEFAULT_PITCH => 0,
            Pitch::FIXED_PITCH => 1,
            Pitch::VARIABLE_PITCH => 2,
        }
    }

    #[verifier::when_used_as_spec(spec_code)]
    pub fn code(self) -> (r: DWORD)
        ensures
            r == self.spec_code(),
    {
        match self {
            Pitch::DEFAULT_PITCH => 0,
            Pitch::FIXED_PITCH => 1,
            Pitch::VARIABLE_PITCH => 2,
        }
    }
}

#[allow(non_camel_case_types)]
#[derive(Clone, Copy, Debug, PartialEq, Eq, Structural)]
pub enum Family {
    FF_DECORATIVE,
    FF_DONTCARE,
    FF_MODERN,
    FF_ROMAN,
    FF_SCRIPT,
    FF_SWISS,
}

impl Family {
    /// The platform's number for this family; a multiple of sixteen.
    pub open spec fn spec_code(self) -> DWORD {
        match self {
            Family::FF_DECORATIVE => 80,
            Family::FF_DONTCARE => 0,
            Family::FF_MODERN => 48,
            Family::FF_ROMAN => 16,
            Family::FF_SCRIPT => 64,
            Family::FF_SWISS => 32,
        }
    }

    #[verifier::when_used_as_spec(spec_code)]
    pub fn code(self) -> (r: DWORD)
        ensures
            r == self.spec_code(),
    {
        match self {
            Family::FF_DECORATIVE => 80,
            Family::FF_DONTCARE => 0,
            Family::FF_MODERN => 48,
            Family::FF_ROMAN => 16,
            Family::FF_SCRIPT => 64,
            Family::FF_SWISS => 32,
        }
    }
}

/// What an application asks of a font.
pub struct FontAttr {
    pub height: isize,
    pub width: isize,
    pub escapement: isize,
    pub orientation: isize,
    pub weight: isize,
    pub italic: bool,
    pub underline: bool,
    pub strike_out: bool,
    pub char_set: CharSet,
    pub output_precision: OutputPrecision,
    pub clip_precision: ClipPrecision,
    pub quality: Quality,
    pub pitch: Pitch,
    pub family: Family,
    pub face: Option<String>,
}

impl Default for FontAttr {
    /// A font of normal weight with every other attribute left to the
    /// platform's choice.
    fn default() -> (r: FontAttr)
        ensures
            r.height == 0,
            r.width == 0,
            r.escapement == 0,
            r.orientation == 0,
            r.weight == 400,
            !r.italic,
            !r.underline,
            !r.strike_out,
            r.char_set == CharSet::DEFAULT_CHARSET,
            r.output_precision == OutputPrecision::OUT_DEFAULT_PRECIS,
            r.clip_precision == ClipPrecision::CLIP_DEFAULT_PRECIS,
            r.quality == Quality::DEFAULT_QUALITY,
            r.pitch == Pitch::DEFAULT_PITCH,
            r.family == Family::FF_DONTCARE,
            r.face is None,
    {
        FontAttr {
            height: 0,
            width: 0,
            escapement: 0,
            orientation: 0,
            weight: 400,
            italic: false,
            underline: false,
            strike_out: false,
            char_set: CharSet::DEFAULT_CHARSET,
            output_precision: OutputPrecision::OUT_DEFAULT_PRECIS,
            clip_precision: ClipPrecision::CLIP_DEFAULT_PRECIS,
            quality: Quality::DEFAULT_QUALITY,
            pitch: Pitch::DEFAULT_PITCH,
            family: Family::FF_DONTCARE,
            face: None,
        }
    }
}

/// A flag as the platform takes it: one for set, zero for clear.
pub open spec fn flag(b: bool) -> DWORD {
    if b {
        1
    } else {
        0
    }
}

/// Pitch and family share one parameter: the pitch in the two low bits, the
/// family in the bits above them, so that their codes add up.
pub open spec fn pitch_and_family(pitch: Pitch, family: Family) -> DWORD {
    (pitch.spec_code() + family.spec_code()) as DWORD
}

/// The parameters of logical-font creation, in the order and the integer
/// types in which the platform takes them.
pub struct FontParams {
    pub height: c_int,
    pub width: c_int,
    pub escapement: c_int,
    pub orientation: c_int,
    pub weight: c_int,
    pub italic: DWORD,
    pub underline: DWORD,
    pub strike_out: DWORD,
    pub char_set: DWORD,
    pub output_precision: DWORD,
    pub clip_precision: DWORD,
    pub quality: DWORD,
    pub pitch_and_family: DWORD,
    /// The face name as a zero-terminated wide string; empty where the
    /// attributes name no face, and then no name is passed at all.
    pub face: Vec<u16>,
}

impl FontAttr {
    /// Lays the attributes out as the parameters of logical-font creation.
    /// Sizes and angles are cut to the platform's 32-bit integers.
    pub fn params(&self) -> (p: FontParams)
        ensures
            p.height == self.height as c_int,
            p.width == self.width as c_int,
            p.escapement == self.escapement as c_int,
            p.orientation == self.orientation as c_int,
            p.weight == self.weight as c_int,
            p.italic == flag(self.italic),
            p.underline == flag(self.underline),
            p.strike_out == flag(self.strike_out),
            p.char_set == self.char_set.spec_code(),
            p.output_precision == self.output_precision.spec_code(),
            p.clip_precision == self.clip_precision.spec_code(),
            p.quality == self.quality.spec_code(),
            p.pitch_and_family == pitch_and_family(self.pitch, self.family),
            p.face@ == self.face.c_u16_units(),
    {
        let pitch = self.pitch.code();
        let family = self.family.code();
        assert(pitch | family == pitch + family) by (bit_vector)
            requires
                pitch == 0 || pitch == 1 || pitch == 2,
                family == 0 || family == 16 || family == 32 || family == 48 || family == 64
                    || family == 80,
        ;
        FontParams {
            height: #[verifier::truncate] (self.height as c_int),
            width: #[verifier::truncate] (self.width as c_int),
            escapement: #[verifier::truncate] (self.escapement as c_int),
            orientation: #[verifier::truncate] (self.orientation as c_int),
            weight: #[verifier::truncate] (self.weight as c_int),
            italic: if self.italic { 1 } else { 0 },
            underline: if self.underline { 1 } else { 0 },
            strike_out: if self.strike_out { 1 } else { 0 },
            char_set: self.char_set.code(),
            output_precision: self.output_precision.code(),
            clip_precision: self.clip_precision.code(),
            quality: self.quality.code(),
            pitch_and_family: pitch | family,
            face: self.face.to_c_u16(),
        }
    }
}

/// A logical font, by its handle.
#[derive(Clone, Copy, Debug, PartialEq, Eq, Structural)]
pub struct Font {
    pub font: HFONT,
}

impl Font {
    /// The font that creation handed back: none where the platform answered
    /// with the null handle.
    pub fn created(font: HFONT) -> (r: Option<Font>)
        ensures
            font == NULL_HANDLE ==> r is None,
            font != NULL_HANDLE ==> r == Some((Font { font })),
    {
        if font == NULL_HANDLE {
            None
        } else {
            Some(Font { font })
        }
    }
}

} // verus!
