use lens_undistort::pixel::PixelFormatDesc;
use lens_undistort::pixel::decode_scalar;
use lens_undistort::pixel::encode_scalar;
use lens_undistort::pixel::pixel_byte_offset;

#[test]
fn scalars_read_little_endian() {
    let bytes: Vec<u8> = vec![0x12, 0x34, 0x56, 0x78, 0x9A];
    assert_eq!(decode_scalar(&bytes, 0, 1), 0x12);
    assert_eq!(decode_scalar(&bytes, 1, 1), 0x34);
    assert_eq!(decode_scalar(&bytes, 0, 2), 0x3412);
    assert_eq!(decode_scalar(&bytes, 1, 4), 0x9A785634);
}

#[test]
fn scalars_write_little_endian() {
    let mut out: Vec<u8> = Vec::new();
    encode_scalar(0xAB, 1, &mut out);
    encode_scalar(0x3412, 2, &mut out);
    encode_scalar(0x9A785634, 4, &mut out);
    assert_eq!(out, vec![0xAB, 0x12, 0x34, 0x34, 0x56, 0x78, 0x9A]);
}

#[test]
fn record_size_is_channels_times_scalar_width() {
    assert_eq!(PixelFormatDesc { channels: 4, scalar_bytes: 1 }.record_size(), 4);
    assert_eq!(PixelFormatDesc { channels: 2, scalar_bytes: 2 }.record_size(), 4);
    assert_eq!(PixelFormatDesc { channels: 4, scalar_bytes: 4 }.record_size(), 16);
    assert_eq!(PixelFormatDesc { channels: 1, scalar_bytes: 1 }.record_size(), 1);
}

#[test]
fn records_decode_channel_by_channel() {
    let fmt = PixelFormatDesc { channels: 2, scalar_bytes: 2 };
    let bytes: Vec<u8> = vec![0xEE, 0x01, 0x02, 0x03, 0x04];
    assert_eq!(fmt.decode_record(&bytes, 1), vec![0x0201, 0x0403]);
}

#[test]
fn records_round_trip_through_bytes() {
    let fmt = PixelFormatDesc { channels: 4, scalar_bytes: 2 };
    let vals: Vec<u32> = vec![0x0102, 0xFFEE, 0, 0x7F80];
    let mut bytes: Vec<u8> = Vec::new();
    fmt.encode_record(&vals, &mut bytes);
    assert_eq!(bytes.len(), 8);
    assert_eq!(fmt.decode_record(&bytes, 0), vals);
}

#[test]
fn bytes_round_trip_through_records() {
    let fmt = PixelFormatDesc { channels: 4, scalar_bytes: 1 };
    let bytes: Vec<u8> = vec![10, 20, 30, 40];
    let vals = fmt.decode_record(&bytes, 0);
    let mut back: Vec<u8> = Vec::new();
    fmt.encode_record(&vals, &mut back);
    assert_eq!(back, bytes);
}

#[test]
fn pixel_offsets_step_by_record_and_stride() {
    assert_eq!(pixel_byte_offset(0, 0, 6, 4, 24, 4), 0);
    assert_eq!(pixel_byte_offset(2, 3, 6, 4, 24, 4), 3 * 24 + 8);
    assert_eq!(pixel_byte_offset(5, 0, 6, 4, 24, 4), 20);
}
