//! The eight independent boolean flags packed into the first header byte.

use vstd::prelude::*;

verus! {

/// The flag byte of the main header, unpacked.
///
/// The bits are read most-significant first, in the order `xy_file`,
/// `each_subfile_own_x_array`, `custom_axis_labels`, `z_not_even`,
/// `z_randomly_ordered`, `multifile`, `experiment_extension`,
/// `y16bit_precision`.  Every 8-bit pattern is valid; the flags gate all
/// conditional decoding that follows the main header.
#[derive(Debug, PartialEq, Eq, Structural, Clone, Copy)]
pub struct FileTypeFlags {
    pub y16bit_precision: bool,
    pub experiment_extension: bool,
    pub multifile: bool,
    pub z_randomly_ordered: bool,
    pub z_not_even: bool,
    pub custom_axis_labels: bool,
    pub each_subfile_own_x_array: bool,
    pub xy_file: bool,
}

/// Bit `k` of byte `b`, with bit 7 the most significant.
pub open spec fn spec_bit(b: u8, k: u8) -> bool {
    (b >> k) & 1 == 1
}

/// The flag record encoded by byte `b`, most-significant bit first.
pub open spec fn spec_file_type_flags(b: u8) -> FileTypeFlags {
    FileTypeFlags {
        y16bit_precision: spec_bit(b, 0),
        experiment_extension: spec_bit(b, 1),
        multifile: spec_bit(b, 2),
        z_randomly_ordered: spec_bit(b, 3),
        z_not_even: spec_bit(b, 4),
        custom_axis_labels: spec_bit(b, 5),
        each_subfile_own_x_array: spec_bit(b, 6),
        xy_file: spec_bit(b, 7),
    }
}

/// The byte that carries a flag record, each flag at its documented bit.
pub open spec fn spec_flags_byte(f: FileTypeFlags) -> u8 {
    ((if f.xy_file {
        128int
    } else {
        0int
    }) + (if f.each_subfile_own_x_array {
        64int
    } else {
        0int
    }) + (if f.custom_axis_labels {
        32int
    } else {
        0int
    }) + (if f.z_not_even {
        16int
    } else {
        0int
    }) + (if f.z_randomly_ordered {
        8int
    } else {
        0int
    }) + (if f.multifile {
        4int
    } else {
        0int
    }) + (if f.experiment_extension {
        2int
    } else {
        0int
    }) + (if f.y16bit_precision {
        1int
    } else {
        0int
    })) as u8
}

/// Decode the flag byte of the main header into its eight booleans.
pub fn file_type_flags(b: u8) -> (r: FileTypeFlags)
    ensures
        r == spec_file_type_flags(b),
{
    FileTypeFlags {
        y16bit_precision: (b >> 0) & 1 == 1,
        experiment_extension: (b >> 1) & 1 == 1,
        multifile: (b >> 2) & 1 == 1,
        z_randomly_ordered: (b >> 3) & 1 == 1,
        z_not_even: (b >> 4) & 1 == 1,
        custom_axis_labels: (b >> 5) & 1 == 1,
        each_subfile_own_x_array: (b >> 6) & 1 == 1,
        xy_file: (b >> 7) & 1 == 1,
    }
}

/// Reassemble a flag record into the byte that encodes it.
pub fn flags_byte(f: &FileTypeFlags) -> (r: u8)
    ensures
        r == spec_flags_byte(*f),
{
    let mut b: u8 = 0;
    if f.xy_file {
        b = b + 128;
    }
    if f.each_subfile_own_x_array {
        b = b + 64;
    }
    if f.custom_axis_labels {
        b = b + 32;
    }
    if f.z_not_even {
        b = b + 16;
    }
    if f.z_randomly_ordered {
        b = b + 8;
    }
    if f.multifile {
        b = b + 4;
    }
    if f.experiment_extension {
        b = b + 2;
    }
    if f.y16bit_precision {
        b = b + 1;
    }
    b
}

/// Law: unpacking the eight flag bits of any byte and reassembling them in
/// the documented bit order reproduces the byte.
pub proof fn lemma_flags_round_trip(b: u8)
    ensures
        spec_flags_byte(spec_file_type_flags(b)) == b,
{
    assert(spec_flags_byte(spec_file_type_flags(b)) == b) by (bit_vector);
}

} // verus!
