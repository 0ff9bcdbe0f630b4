//! The file-version byte and the float-encoding indicator byte.

use vstd::prelude::*;

use crate::error::DecodeError;

verus! {

/// The two file-format generations a version byte may announce.
#[derive(Debug, PartialEq, Eq, Structural, Clone, Copy)]
pub enum FileVersion {
    NewFormat,
    OldLabCalcFormat,
}

/// What the version byte means: `0x4b` and `0x4d` are the only two
/// defined values; everything else is a decode failure.
pub open spec fn spec_file_version(b: u8) -> Result<FileVersion, DecodeError> {
    if b == 0x4b {
        Ok(FileVersion::NewFormat)
    } else if b == 0x4d {
        Ok(FileVersion::OldLabCalcFormat)
    } else {
        Err(DecodeError::UnknownVersion)
    }
}

/// Decode the version byte of the main header.
pub fn file_version(b: u8) -> (r: Result<FileVersion, DecodeError>)
    ensures
        r == spec_file_version(b),
{
    if b == 0x4b {
        Ok(FileVersion::NewFormat)
    } else if b == 0x4d {
        Ok(FileVersion::OldLabCalcFormat)
    } else {
        Err(DecodeError::UnknownVersion)
    }
}

/// Whether the float-encoding indicator byte designates standard IEEE-754
/// single-precision storage.  Exactly `0x80` does; any other byte announces
/// a legacy encoding whose data sections must not be read as IEEE floats.
pub open spec fn spec_regular_floats(b: u8) -> bool {
    b == 0x80
}

/// Decode the float-encoding indicator byte of the main header.
pub fn regular_floats(b: u8) -> (r: bool)
    ensures
        r == spec_regular_floats(b),
{
    b == 0x80
}

} // verus!
