//! The main header parser, the conditional data-section extractor, and the
//! vectorizer that prepares one spectrum for rendering.

use vstd::prelude::*;

use crate::bytes::le_u32_at;
use crate::bytes::le_u64_at;
use crate::bytes::read_le_u32_run;
use crate::bytes::spec_le_u32;
use crate::bytes::spec_le_u32_run;
use crate::bytes::spec_le_u64;
use crate::error::DecodeError;
use crate::flags::FileTypeFlags;
use crate::flags::file_type_flags;
use crate::flags::spec_file_type_flags;
use crate::units::XUnit;
use crate::units::YUnit;
use crate::units::spec_x_unit;
use crate::units::spec_y_unit;
use crate::units::x_unit;
use crate::units::y_unit;
use crate::version::FileVersion;
use crate::version::file_version;
use crate::version::regular_floats;
use crate::version::spec_file_version;
use crate::version::spec_regular_floats;

verus! {

/// The byte length of the fixed main header: the interpreted fields up to
/// and including the Z-unit byte, then a reserved region (a legacy
/// custom-axis-label slot and an unused tail) skipped uninterpreted.
pub const HEADER_LEN: usize = 512;

/// The byte length of the fixed per-subfile sub-header that precedes each
/// subfile's data.
pub const SUBHEADER_LEN: usize = 32;

/// One decoded SPC file: the main header and the optional data sections.
///
/// `first_x` and `last_x` hold the bit patterns of the two little-endian
/// IEEE-754 doubles that bound the X axis; the samples in the two optional
/// data sections are bit patterns of IEEE-754 singles.  The decoder never
/// computes with them, so they stay exact integers here, and a renderer
/// reconstitutes the numbers from the bits.
#[derive(Debug, PartialEq)]
pub struct Spc {
    pub file_type_flags: FileTypeFlags,
    pub file_version: FileVersion,
    pub regular_floats: bool,
    pub number_of_points: u32,
    pub first_x: u64,
    pub last_x: u64,
    pub number_of_subfiles: u32,
    pub x_unit: XUnit,
    pub y_unit: YUnit,
    pub z_unit: YUnit,
    pub xy_single_file_x_data: Option<Vec<u32>>,
    pub single_and_xyy_multi_y_data: Option<Vec<u32>>,
}

/// The mathematical shape of a decoded file: as [`Spc`], with the data
/// sections as sequences.
#[verifier::ext_equal]
pub struct SpcModel {
    pub file_type_flags: FileTypeFlags,
    pub file_version: FileVersion,
    pub regular_floats: bool,
    pub number_of_points: u32,
    pub first_x: u64,
    pub last_x: u64,
    pub number_of_subfiles: u32,
    pub x_unit: XUnit,
    pub y_unit: YUnit,
    pub z_unit: YUnit,
    pub xy_single_file_x_data: Option<Seq<u32>>,
    pub single_and_xyy_multi_y_data: Option<Seq<u32>>,
}

impl View for Spc {
    type V = SpcModel;

    open spec fn view(&self) -> SpcModel {
        SpcModel {
            file_type_flags: self.file_type_flags,
            file_version: self.file_version,
            regular_floats: self.regular_floats,
            number_of_points: self.number_of_points,
            first_x: self.first_x,
            last_x: self.last_x,
            number_of_subfiles: self.number_of_subfiles,
            x_unit: self.x_unit,
            y_unit: self.y_unit,
            z_unit: self.z_unit,
            xy_single_file_x_data: self.xy_single_file_x_data.deep_view(),
            single_and_xyy_multi_y_data: self.single_and_xyy_multi_y_data.deep_view(),
        }
    }
}

impl SpcModel {
    /// The "simple case" the vectorizer accepts: IEEE floats, exactly one
    /// subfile, and a decoded Y data section.
    pub open spec fn is_simple(self) -> bool {
        self.regular_floats && self.number_of_subfiles == 1
            && self.single_and_xyy_multi_y_data is Some
    }

    /// Each data section that is present holds exactly `number_of_points`
    /// samples.  Every decoded file satisfies this.
    pub open spec fn wf(self) -> bool {
        &&& (self.xy_single_file_x_data matches Some(xs) ==> xs.len() == self.number_of_points)
        &&& (self.single_and_xyy_multi_y_data matches Some(ys) ==> ys.len()
            == self.number_of_points)
    }
}

/// What decoding a byte buffer yields: the whole decoder, stated over the
/// bytes alone.
///
/// The main header is a run of fixed-offset little-endian fields — the flag
/// byte, the version byte, one reserved byte, the float-encoding byte, the
/// point count, the two X-axis bounds, the subfile count and the three unit
/// bytes — padded to `HEADER_LEN` bytes by a reserved region that is skipped
/// without interpretation.  An explicit X array follows exactly when the
/// flags call the file an XY file that is not a multifile and the samples
/// are IEEE floats; one sub-header is then skipped, and the first subfile's
/// Y array follows exactly when the subfiles share one X axis and the
/// samples are IEEE floats.  Each decode step that finds the buffer too
/// short fails with `Truncated`; an undefined version or unit byte fails
/// with its own error before any data section is read.  Trailing bytes
/// after the decoded sections are ignored.
pub open spec fn spec_parse(s: Seq<u8>) -> Result<SpcModel, DecodeError> {
    if s.len() < 2 {
        Err(DecodeError::Truncated)
    } else if spec_file_version(s[1]) is Err {
        Err(DecodeError::UnknownVersion)
    } else if s.len() < 29 {
        Err(DecodeError::Truncated)
    } else if spec_x_unit(s[28]) is Err {
        Err(DecodeError::UnknownUnitCode)
    } else if s.len() < 30 {
        Err(DecodeError::Truncated)
    } else if spec_y_unit(s[29]) is Err {
        Err(DecodeError::UnknownUnitCode)
    } else if s.len() < 31 {
        Err(DecodeError::Truncated)
    } else if spec_y_unit(s[30]) is Err {
        Err(DecodeError::UnknownUnitCode)
    } else {
        let flags = spec_file_type_flags(s[0]);
        let rf = spec_regular_floats(s[3]);
        let n = spec_le_u32(s, 4) as int;
        let x_present = flags.xy_file && !flags.multifile && rf;
        let y_present = !flags.each_subfile_own_x_array && rf;
        let x_end: int = HEADER_LEN + (if x_present {
            4 * n
        } else {
            0int
        });
        let y_start: int = x_end + SUBHEADER_LEN;
        let y_end: int = y_start + (if y_present {
            4 * n
        } else {
            0int
        });
        if s.len() < y_end {
            Err(DecodeError::Truncated)
        } else {
            Ok(
                SpcModel {
                    file_type_flags: flags,
                    file_version: spec_file_version(s[1])->Ok_0,
                    regular_floats: rf,
                    number_of_points: spec_le_u32(s, 4),
                    first_x: spec_le_u64(s, 8),
                    last_x: spec_le_u64(s, 16),
                    number_of_subfiles: spec_le_u32(s, 24),
                    x_unit: spec_x_unit(s[28])->Ok_0,
                    y_unit: spec_y_unit(s[29])->Ok_0,
                    z_unit: spec_y_unit(s[30])->Ok_0,
                    xy_single_file_x_data: if x_present {
                        Some(spec_le_u32_run(s, HEADER_LEN as int, n))
                    } else {
                        None
                    },
                    single_and_xyy_multi_y_data: if y_present {
                        Some(spec_le_u32_run(s, y_start, n))
                    } else {
                        None
                    },
                },
            )
        }
    }
}

/// Decode one SPC file from the full contents of its byte buffer.
///
/// The result is exactly what [`spec_parse`] states for the bytes, so the
/// decode is a pure function of the buffer: no step reads past the buffer's
/// length, and a buffer too short for any step fails with
/// `DecodeError::Truncated` instead of panicking.
pub fn parse_file(buffer: &[u8]) -> (r: Result<Spc, DecodeError>)
    ensures
        match r {
            Ok(spc) => spec_parse(buffer@) == Ok::<SpcModel, DecodeError>(spc@),
            Err(e) => spec_parse(buffer@) == Err::<SpcModel, DecodeError>(e),
        },
        r matches Ok(spc) ==> spc@.wf(),
{
    if buffer.len() < 2 {
        return Err(DecodeError::Truncated);
    }
    let flags = file_type_flags(buffer[0]);
    let version = match file_version(buffer[1]) {
        Ok(v) => v,
        Err(e) => {
            return Err(e);
        },
    };
    if buffer.len() < 29 {
        return Err(DecodeError::Truncated);
    }
    let x_unit_tag = match x_unit(buffer[28]) {
        Ok(u) => u,
        Err(e) => {
            return Err(e);
        },
    };
    if buffer.len() < 30 {
        return Err(DecodeError::Truncated);
    }
    let y_unit_tag = match y_unit(buffer[29]) {
        Ok(u) => u,
        Err(e) => {
            return Err(e);
        },
    };
    if buffer.len() < 31 {
        return Err(DecodeError::Truncated);
    }
    let z_unit_tag = match y_unit(buffer[30]) {
        Ok(u) => u,
        Err(e) => {
            return Err(e);
        },
    };
    if buffer.len() < HEADER_LEN {
        return Err(DecodeError::Truncated);
    }
    let rf = regular_floats(buffer[3]);
    let number_of_points = le_u32_at(buffer, 4);
    let first_x = le_u64_at(buffer, 8);
    let last_x = le_u64_at(buffer, 16);
    let number_of_subfiles = le_u32_at(buffer, 24);

    let x_present = flags.xy_file && !flags.multifile && rf;
    let xy_single_file_x_data: Option<Vec<u32>> = if x_present {
        match read_le_u32_run(buffer, HEADER_LEN, number_of_points) {
            Ok(v) => Some(v),
            Err(e) => {
                return Err(e);
            },
        }
    } else {
        None
    };
    let x_end: usize = if x_present {
        HEADER_LEN + 4 * (number_of_points as usize)
    } else {
        HEADER_LEN
    };

    if buffer.len() - x_end < SUBHEADER_LEN {
        return Err(DecodeError::Truncated);
    }
    let y_start = x_end + SUBHEADER_LEN;

    let y_present = !flags.each_subfile_own_x_array && rf;
    let single_and_xyy_multi_y_data: Option<Vec<u32>> = if y_present {
        match read_le_u32_run(buffer, y_start, number_of_points) {
            Ok(v) => Some(v),
            Err(e) => {
                return Err(e);
            },
        }
    } else {
        None
    };

    let spc = Spc {
        file_type_flags: flags,
        file_version: version,
        regular_floats: rf,
        number_of_points,
        first_x,
        last_x,
        number_of_subfiles,
        x_unit: x_unit_tag,
        y_unit: y_unit_tag,
        z_unit: z_unit_tag,
        xy_single_file_x_data,
        single_and_xyy_multi_y_data,
    };
    proof {
        assert(spec_parse(buffer@) matches Ok(m) && spc@ =~~= m);
    }
    Ok(spc)
}

/// The X axis of one vectorized spectrum.
///
/// Either the explicit per-point samples decoded from the file (bit
/// patterns of IEEE-754 singles), or the description of an evenly spaced
/// axis: the two bounds as IEEE-754 double bit patterns and the sample
/// count.  Realizing an even axis takes single-precision arithmetic
/// (`x1 + i * (xn - x1) / (n - 1)` in the format's terms), which lies with
/// the rendering layer, outside this verified core.
#[derive(Debug, PartialEq)]
pub enum XAxis {
    Explicit(Vec<u32>),
    Even { first_x: u64, last_x: u64, number_of_points: u32 },
}

/// The mathematical shape of an X axis: as [`XAxis`], with the explicit
/// samples as a sequence.
#[verifier::ext_equal]
pub enum XAxisModel {
    Explicit(Seq<u32>),
    Even { first_x: u64, last_x: u64, number_of_points: u32 },
}

impl View for XAxis {
    type V = XAxisModel;

    open spec fn view(&self) -> XAxisModel {
        match self {
            XAxis::Explicit(xs) => XAxisModel::Explicit(xs@),
            XAxis::Even { first_x, last_x, number_of_points } => XAxisModel::Even {
                first_x: *first_x,
                last_x: *last_x,
                number_of_points: *number_of_points,
            },
        }
    }
}

/// How many samples an X axis holds, once an even axis is realized.
pub open spec fn spec_axis_len(x: XAxisModel) -> int {
    match x {
        XAxisModel::Explicit(xs) => xs.len() as int,
        XAxisModel::Even { number_of_points, .. } => number_of_points as int,
    }
}

/// One spectrum ready for rendering: the X axis and the per-point Y
/// intensities (bit patterns of IEEE-754 singles), equally long.
#[derive(Debug, PartialEq)]
pub struct SpcVectors {
    pub xs: XAxis,
    pub ys: Vec<u32>,
}

/// The mathematical shape of [`SpcVectors`].
#[verifier::ext_equal]
pub struct SpcVectorsModel {
    pub xs: XAxisModel,
    pub ys: Seq<u32>,
}

impl View for SpcVectors {
    type V = SpcVectorsModel;

    open spec fn view(&self) -> SpcVectorsModel {
        SpcVectorsModel { xs: self.xs@, ys: self.ys@ }
    }
}

impl Spc {
    /// Whether this file is the simple case the vectorizer accepts.
    fn is_simple(&self) -> (r: bool)
        ensures
            r == self@.is_simple(),
    {
        self.regular_floats && self.number_of_subfiles == 1
            && self.single_and_xyy_multi_y_data.is_some()
    }

    /// Assemble the final X/Y pair of the simple single-subfile case.
    ///
    /// Exactly when the file is simple — IEEE floats, one subfile, a decoded
    /// Y section — the result carries that Y section and, as X, the explicit
    /// X section if the file had one, else the even axis described by the
    /// header's bounds and point count.  Every other variant (several
    /// subfiles, non-IEEE floats, per-subfile X arrays) is answered with
    /// `DecodeError::UnsupportedFormat`, never guessed at.  For a
    /// well-formed file both sides come out `number_of_points` long.
    pub fn to_vectors(self) -> (r: Result<SpcVectors, DecodeError>)
        ensures
            self@.is_simple() ==> (r matches Ok(v) && v@.ys
                == self@.single_and_xyy_multi_y_data->Some_0 && v@.xs == (
            match self@.xy_single_file_x_data {
                Some(xs) => XAxisModel::Explicit(xs),
                None => XAxisModel::Even {
                    first_x: self@.first_x,
                    last_x: self@.last_x,
                    number_of_points: self@.number_of_points,
                },
            })),
            !self@.is_simple() ==> r == Err::<SpcVectors, DecodeError>(
                DecodeError::UnsupportedFormat,
            ),
            self@.is_simple() && self@.wf() ==> (r matches Ok(v) && v@.ys.len()
                == self@.number_of_points && spec_axis_len(v@.xs) == self@.number_of_points),
    {
        if !self.is_simple() {
            return Err(DecodeError::UnsupportedFormat);
        }
        let ys = match self.single_and_xyy_multi_y_data {
            Some(v) => v,
            None => {
                return Err(DecodeError::UnsupportedFormat);
            },
        };
        let xs = match self.xy_single_file_x_data {
            Some(v) => XAxis::Explicit(v),
            None => XAxis::Even {
                first_x: self.first_x,
                last_x: self.last_x,
                number_of_points: self.number_of_points,
            },
        };
        Ok(SpcVectors { xs, ys })
    }
}

/// Law: decoding is a pure function of the bytes, so decoding the same
/// buffer twice yields structurally equal results — there is no hidden
/// mutable state.
pub proof fn lemma_decode_deterministic(s1: Seq<u8>, s2: Seq<u8>)
    requires
        s1 == s2,
    ensures
        spec_parse(s1) == spec_parse(s2),
{
}

/// Law: a file whose header counts two subfiles is never the simple case,
/// whatever its other fields, so `to_vectors` answers it with
/// `DecodeError::UnsupportedFormat`.
pub proof fn lemma_two_subfiles_not_simple(m: SpcModel)
    requires
        m.number_of_subfiles == 2,
    ensures
        !m.is_simple(),
{
}

/// Law: a buffer shorter than the fixed main header never decodes, and —
/// as long as the version and unit bytes it does hold are defined ones —
/// it fails precisely with `DecodeError::Truncated`.  (A short buffer whose
/// version or unit byte is itself undefined fails with that byte's own
/// error instead; it never decodes either.)
pub proof fn lemma_short_buffer_truncated(s: Seq<u8>)
    requires
        s.len() < HEADER_LEN,
    ensures
        spec_parse(s) is Err,
        (s.len() >= 2 ==> spec_file_version(s[1]) is Ok) && (s.len() >= 29 ==> spec_x_unit(s[28])
            is Ok) && (s.len() >= 30 ==> spec_y_unit(s[29]) is Ok) && (s.len() >= 31
            ==> spec_y_unit(s[30]) is Ok) ==> spec_parse(s) == Err::<SpcModel, DecodeError>(
            DecodeError::Truncated,
        ),
{
}

} // verus!
