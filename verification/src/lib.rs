//! Decoder for the Galactic/Thermo SPC binary spectroscopy file format.
//!
//! The decoder turns the raw bytes of one `.spc` file into a structured
//! value and, for the simple single-subfile case, into a pair of axis
//! descriptions ready for rendering.  Every multi-byte numeric field of the
//! format is little-endian; single-precision samples and the
//! double-precision axis bounds are carried as their IEEE-754 bit patterns
//! (`u32` and `u64`), since the decoder itself never does arithmetic on
//! them — realizing them as numbers is the rendering layer's affair.

pub mod bytes;
pub mod error;
pub mod flags;
pub mod spc;
pub mod units;
pub mod version;

pub use crate::error::DecodeError;
pub use crate::flags::FileTypeFlags;
pub use crate::flags::file_type_flags;
pub use crate::flags::flags_byte;
pub use crate::spc::Spc;
pub use crate::spc::SpcVectors;
pub use crate::spc::XAxis;
pub use crate::spc::parse_file;
pub use crate::units::XUnit;
pub use crate::units::YUnit;
pub use crate::units::x_unit;
pub use crate::units::y_unit;
pub use crate::version::FileVersion;
pub use crate::version::file_version;
pub use crate::version::regular_floats;
