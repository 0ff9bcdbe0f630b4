use spc_parser::DecodeError;
use spc_parser::FileVersion;
use spc_parser::Spc;
use spc_parser::XUnit;
use spc_parser::YUnit;
use spc_parser::XAxis;
use spc_parser::parse_file;

const HEADER_LEN: usize = 512;
const SUBHEADER_LEN: usize = 32;

/// Build the 512-byte fixed main header from its interpreted fields; the
/// reserved byte and the reserved tail are zero.
fn header(
    flags: u8,
    version: u8,
    float_byte: u8,
    points: u32,
    first_x: f64,
    last_x: f64,
    subfiles: u32,
    x_unit_code: u8,
    y_unit_code: u8,
    z_unit_code: u8,
) -> Vec<u8> {
    let mut h = vec![0u8; HEADER_LEN];
    h[0] = flags;
    h[1] = version;
    h[3] = float_byte;
    h[4..8].copy_from_slice(&points.to_le_bytes());
    h[8..16].copy_from_slice(&first_x.to_le_bytes());
    h[16..24].copy_from_slice(&last_x.to_le_bytes());
    h[24..28].copy_from_slice(&subfiles.to_le_bytes());
    h[28] = x_unit_code;
    h[29] = y_unit_code;
    h[30] = z_unit_code;
    h
}

fn push_f32s(buffer: &mut Vec<u8>, values: &[f32]) {
    for v in values {
        buffer.extend_from_slice(&v.to_le_bytes());
    }
}

fn bits(values: &[f32]) -> Vec<u32> {
    values.iter().map(|v| v.to_bits()).collect()
}

/// A complete simple file: one subfile, IEEE floats, no explicit X array.
fn simple_file(first_x: f64, last_x: f64, ys: &[f32]) -> Vec<u8> {
    let mut buffer = header(0x00, 0x4b, 0x80, ys.len() as u32, first_x, last_x, 1, 13, 4, 0);
    buffer.extend_from_slice(&[0u8; SUBHEADER_LEN]);
    push_f32s(&mut buffer, ys);
    buffer
}

#[test]
fn simple_file_decodes_every_field() {
    let ys = [1.5f32, 2.5, 3.5];
    let buffer = simple_file(4.0, 5.0, &ys);
    let spc = parse_file(&buffer).expect("decode");
    assert!(spc.file_type_flags == spc_parser::file_type_flags(0));
    assert_eq!(spc.file_version, FileVersion::NewFormat);
    assert!(spc.regular_floats);
    assert_eq!(spc.number_of_points, 3);
    assert_eq!(spc.first_x, 4.0f64.to_bits());
    assert_eq!(spc.last_x, 5.0f64.to_bits());
    assert_eq!(spc.number_of_subfiles, 1);
    assert_eq!(spc.x_unit, XUnit::RamanShift);
    assert_eq!(spc.y_unit, YUnit::Counts);
    assert_eq!(spc.z_unit, YUnit::Arbitrary);
    assert_eq!(spc.xy_single_file_x_data, None);
    assert_eq!(spc.single_and_xyy_multi_y_data, Some(bits(&ys)));
}

#[test]
fn simple_file_vectorizes_to_even_axis() {
    let ys = [1.5f32, 2.5, 3.5];
    let buffer = simple_file(4.0, 5.0, &ys);
    let spc = parse_file(&buffer).expect("decode");
    let vectors = spc.to_vectors().expect("vectorize");
    assert_eq!(vectors.ys, bits(&ys));
    match &vectors.xs {
        XAxis::Even { first_x, last_x, number_of_points } => {
            assert_eq!(*first_x, 4.0f64.to_bits());
            assert_eq!(*last_x, 5.0f64.to_bits());
            assert_eq!(*number_of_points, 3);
        }
        XAxis::Explicit(_) => panic!("expected an even axis"),
    }
    // Realizing the even axis in single precision gives the evenly
    // spaced samples between the two bounds.
    assert_eq!(realize_even_axis(&vectors.xs), vec![4.0f32, 4.5, 5.0]);
}

/// Realize an even axis the way a renderer does: single-precision
/// `x1 + i * (xn - x1) / (n - 1)`.
fn realize_even_axis(xs: &XAxis) -> Vec<f32> {
    match xs {
        XAxis::Even { first_x, last_x, number_of_points } => {
            let x1 = f64::from_bits(*first_x) as f32;
            let xn = f64::from_bits(*last_x) as f32;
            (0..*number_of_points)
                .map(|i| x1 + i as f32 * (xn - x1) / (*number_of_points as f32 - 1.0))
                .collect()
        }
        XAxis::Explicit(_) => panic!("expected an even axis"),
    }
}

#[test]
fn even_axes_realize_to_evenly_spaced_points() {
    let cases: [(f64, f64, &[f32]); 3] = [
        (4.0, 5.0, &[4.0, 4.5, 5.0]),
        (11.0, 14.0, &[11.0, 12.0, 13.0, 14.0]),
        (-2.0, -1.0, &[-2.0, -1.75, -1.5, -1.25, -1.0]),
    ];
    for (first, last, expected) in cases {
        let ys = vec![0.0f32; expected.len()];
        let buffer = simple_file(first, last, &ys);
        let spc = parse_file(&buffer).expect("decode");
        let vectors = spc.to_vectors().expect("vectorize");
        assert_eq!(realize_even_axis(&vectors.xs), expected.to_vec());
    }
}

#[test]
fn explicit_x_file_vectorizes_to_its_samples() {
    let xs = [10.0f32, 20.0, 30.0];
    let ys = [7.0f32, 8.0, 9.0];
    // xy_file set, multifile clear: the explicit X array is present.
    let mut buffer = header(0x80, 0x4b, 0x80, 3, 0.0, 0.0, 1, 1, 0, 0);
    push_f32s(&mut buffer, &xs);
    buffer.extend_from_slice(&[0u8; SUBHEADER_LEN]);
    push_f32s(&mut buffer, &ys);
    let spc = parse_file(&buffer).expect("decode");
    assert_eq!(spc.xy_single_file_x_data, Some(bits(&xs)));
    assert_eq!(spc.single_and_xyy_multi_y_data, Some(bits(&ys)));
    let vectors = spc.to_vectors().expect("vectorize");
    assert_eq!(vectors.xs, XAxis::Explicit(bits(&xs)));
    assert_eq!(vectors.ys, bits(&ys));
}

#[test]
fn multifile_flag_suppresses_explicit_x() {
    // xy_file and multifile both set: no explicit X array is read.
    let mut buffer = header(0x84, 0x4b, 0x80, 2, 1.0, 2.0, 1, 0, 0, 0);
    buffer.extend_from_slice(&[0u8; SUBHEADER_LEN]);
    push_f32s(&mut buffer, &[5.0, 6.0]);
    let spc = parse_file(&buffer).expect("decode");
    assert_eq!(spc.xy_single_file_x_data, None);
    assert_eq!(spc.single_and_xyy_multi_y_data, Some(bits(&[5.0, 6.0])));
}

#[test]
fn two_subfiles_are_unsupported() {
    let ys = [1.0f32, 2.0];
    let mut buffer = header(0x00, 0x4b, 0x80, 2, 0.0, 1.0, 2, 0, 0, 0);
    buffer.extend_from_slice(&[0u8; SUBHEADER_LEN]);
    push_f32s(&mut buffer, &ys);
    let spc = parse_file(&buffer).expect("decode");
    assert_eq!(spc.to_vectors(), Err(DecodeError::UnsupportedFormat));
}

#[test]
fn irregular_floats_are_unsupported() {
    // Float-encoding byte is not 0x80: no data section is read as floats.
    let mut buffer = header(0x00, 0x4b, 0x77, 2, 0.0, 1.0, 1, 0, 0, 0);
    buffer.extend_from_slice(&[0u8; SUBHEADER_LEN]);
    let spc = parse_file(&buffer).expect("decode");
    assert!(!spc.regular_floats);
    assert_eq!(spc.xy_single_file_x_data, None);
    assert_eq!(spc.single_and_xyy_multi_y_data, None);
    assert_eq!(spc.to_vectors(), Err(DecodeError::UnsupportedFormat));
}

#[test]
fn per_subfile_x_arrays_are_unsupported() {
    // each_subfile_own_x_array set: the shared Y section is absent.
    let mut buffer = header(0x40, 0x4b, 0x80, 2, 0.0, 1.0, 1, 0, 0, 0);
    buffer.extend_from_slice(&[0u8; SUBHEADER_LEN]);
    let spc = parse_file(&buffer).expect("decode");
    assert_eq!(spc.single_and_xyy_multi_y_data, None);
    assert_eq!(spc.to_vectors(), Err(DecodeError::UnsupportedFormat));
}

#[test]
fn zero_points_decode_to_empty_vectors() {
    let buffer = simple_file(3.0, 3.0, &[]);
    let spc = parse_file(&buffer).expect("decode");
    assert_eq!(spc.number_of_points, 0);
    let vectors = spc.to_vectors().expect("vectorize");
    assert_eq!(vectors.ys, Vec::<u32>::new());
    match vectors.xs {
        XAxis::Even { number_of_points, .. } => assert_eq!(number_of_points, 0),
        XAxis::Explicit(_) => panic!("expected an even axis"),
    }
}

#[test]
fn short_buffers_fail_with_truncated() {
    let full = simple_file(4.0, 5.0, &[1.0, 2.0, 3.0]);
    // Every strict prefix of the fixed header fails as truncated.
    for len in [0usize, 1, 2, 3, 7, 15, 28, 29, 30, 31, 100, 511] {
        assert_eq!(parse_file(&full[..len]), Err(DecodeError::Truncated), "prefix {}", len);
    }
}

#[test]
fn missing_subheader_fails_with_truncated() {
    let buffer = header(0x00, 0x4b, 0x80, 3, 4.0, 5.0, 1, 0, 0, 0);
    assert_eq!(parse_file(&buffer), Err(DecodeError::Truncated));
}

#[test]
fn short_y_section_fails_with_truncated() {
    let mut buffer = header(0x00, 0x4b, 0x80, 3, 4.0, 5.0, 1, 0, 0, 0);
    buffer.extend_from_slice(&[0u8; SUBHEADER_LEN]);
    push_f32s(&mut buffer, &[1.0, 2.0]);
    assert_eq!(parse_file(&buffer), Err(DecodeError::Truncated));
}

#[test]
fn short_x_section_fails_with_truncated() {
    let mut buffer = header(0x80, 0x4b, 0x80, 3, 4.0, 5.0, 1, 0, 0, 0);
    push_f32s(&mut buffer, &[1.0]);
    assert_eq!(parse_file(&buffer), Err(DecodeError::Truncated));
}

#[test]
fn unknown_version_fails_before_data() {
    let buffer = header(0x00, 0x4c, 0x80, 0, 0.0, 0.0, 1, 0, 0, 0);
    assert_eq!(parse_file(&buffer), Err(DecodeError::UnknownVersion));
    // The version byte is judged as soon as it is readable.
    assert_eq!(parse_file(&buffer[..2]), Err(DecodeError::UnknownVersion));
}

#[test]
fn unknown_unit_codes_fail_decode() {
    let bad_x = header(0x00, 0x4b, 0x80, 0, 0.0, 0.0, 1, 31, 0, 0);
    assert_eq!(parse_file(&bad_x), Err(DecodeError::UnknownUnitCode));
    let bad_y = header(0x00, 0x4b, 0x80, 0, 0.0, 0.0, 1, 0, 15, 0);
    assert_eq!(parse_file(&bad_y), Err(DecodeError::UnknownUnitCode));
    let bad_z = header(0x00, 0x4b, 0x80, 0, 0.0, 0.0, 1, 0, 0, 132);
    assert_eq!(parse_file(&bad_z), Err(DecodeError::UnknownUnitCode));
}

#[test]
fn trailing_bytes_are_ignored() {
    let mut buffer = simple_file(4.0, 5.0, &[1.0, 2.0]);
    let plain: Result<Spc, DecodeError> = parse_file(&buffer);
    buffer.extend_from_slice(&[0xaa; 17]);
    assert_eq!(parse_file(&buffer), plain);
}

#[test]
fn decoding_twice_gives_equal_results() {
    let buffer = simple_file(-2.0, -1.0, &[0.25, 0.5, 0.75, 1.0, 1.25]);
    let first = parse_file(&buffer);
    let second = parse_file(&buffer);
    assert_eq!(first, second);
}
