use lens_undistort::padding::strip_row_padding;

#[test]
fn strip_keeps_row_order_and_payload_bytes() {
    // Three rows of 5 payload bytes, each padded to 8 bytes.
    let src: Vec<u8> = vec![
        1, 2, 3, 4, 5, 0xAA, 0xAA, 0xAA, // row 0
        6, 7, 8, 9, 10, 0xBB, 0xBB, 0xBB, // row 1
        11, 12, 13, 14, 15, 0xCC, 0xCC, 0xCC, // row 2
    ];
    let dst = strip_row_padding(&src, 3, 8, 5);
    assert_eq!(dst, vec![1, 2, 3, 4, 5, 6, 7, 8, 9, 10, 11, 12, 13, 14, 15]);
}

#[test]
fn strip_with_equal_strides_copies_everything() {
    let src: Vec<u8> = vec![9, 8, 7, 6, 5, 4];
    let dst = strip_row_padding(&src, 2, 3, 3);
    assert_eq!(dst, src);
}

#[test]
fn strip_of_zero_rows_is_empty() {
    let src: Vec<u8> = vec![1, 2, 3];
    let dst = strip_row_padding(&src, 0, 3, 2);
    assert!(dst.is_empty());
}

#[test]
fn strip_ignores_bytes_beyond_the_rows() {
    let src: Vec<u8> = vec![1, 2, 0xEE, 3, 4, 0xEE, 0xDD, 0xDD];
    let dst = strip_row_padding(&src, 2, 3, 2);
    assert_eq!(dst, vec![1, 2, 3, 4]);
}
