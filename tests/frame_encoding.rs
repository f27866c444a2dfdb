use accel_stream::frame::{be_bytes_of, encode, format_row, Sample, FRAME_LEN, SEPARATOR, TERMINATOR};

fn decode(f: &[u8]) -> (i32, i32, i32) {
    let x = i32::from_be_bytes([f[0], f[1], f[2], f[3]]);
    let y = i32::from_be_bytes([f[5], f[6], f[7], f[8]]);
    let z = i32::from_be_bytes([f[10], f[11], f[12], f[13]]);
    (x, y, z)
}

#[test]
fn encodes_known_sample() {
    let f = format_row(100, -200, 300);
    let expected: [u8; 15] = [
        0x00, 0x00, 0x00, 0x64, 0x2C, 0xFF, 0xFF, 0xFF, 0x38, 0x2C, 0x00, 0x00, 0x01, 0x2C, 0x0A,
    ];
    assert_eq!(f.len(), 15);
    assert_eq!(f.as_slice(), &expected[..]);
}

#[test]
fn encode_of_sample_matches_format_row() {
    let s = Sample { x: 100, y: -200, z: 300 };
    assert_eq!(encode(s).as_slice(), format_row(100, -200, 300).as_slice());
}

#[test]
fn big_endian_bytes() {
    assert_eq!(be_bytes_of(0x01020304), [1, 2, 3, 4]);
    assert_eq!(be_bytes_of(-1), [0xFF, 0xFF, 0xFF, 0xFF]);
    assert_eq!(be_bytes_of(i32::MIN), [0x80, 0, 0, 0]);
    assert_eq!(be_bytes_of(0), [0, 0, 0, 0]);
}

#[test]
fn round_trips_edge_values() {
    let values = [0, 1, -1, 44, 10, i32::MIN, i32::MAX, 0x2C2C2C2C, -200, 123456789];
    for &x in values.iter() {
        for &y in values.iter() {
            for &z in values.iter() {
                let f = format_row(x, y, z);
                assert_eq!(f.len(), FRAME_LEN);
                assert_eq!(decode(f.as_slice()), (x, y, z));
            }
        }
    }
}

#[test]
fn encoding_is_deterministic() {
    let a = format_row(-7, 0x0A0A0A0A, i32::MAX);
    let b = format_row(-7, 0x0A0A0A0A, i32::MAX);
    assert_eq!(a.as_slice(), b.as_slice());
}

#[test]
fn delimiters_are_positional() {
    let f = format_row(0x2C2C2C2C, 0x0A0A0A0A, 0x2C0A2C0A);
    let b = f.as_slice();
    assert_eq!(b[4], SEPARATOR);
    assert_eq!(b[9], SEPARATOR);
    assert_eq!(b[14], TERMINATOR);
    assert_eq!(b.len(), 15);
    assert_eq!(decode(b), (0x2C2C2C2C, 0x0A0A0A0A, 0x2C0A2C0A));
}

#[test]
fn plain_frame_has_two_commas_and_one_newline() {
    let f = format_row(1, 2, 3);
    let b = f.as_slice();
    let commas: Vec<usize> = (0..b.len()).filter(|&i| b[i] == 0x2C).collect();
    let newlines: Vec<usize> = (0..b.len()).filter(|&i| b[i] == 0x0A).collect();
    assert_eq!(commas, vec![4, 9]);
    assert_eq!(newlines, vec![14]);
}
