use node_core::qrcode::{qrcode_from_data, qrcode_from_str, QrCodeError};

#[test]
fn hello_world_str() {
    let text: &'static str = "Hello, world!";
    let qr = qrcode_from_str(text).unwrap();
    let expected = [
        1, 1, 1, 1, 1, 1, 1, 0, 0, 0, 0, 0, 1, 0, 1, 1, 1, 1, 1, 1, 1, 1, 0, 0, 0, 0, 0, 1, 0,
        0, 1, 0, 1, 0, 0, 1, 0, 0, 0, 0, 0, 1, 1, 0, 1, 1, 1, 0, 1, 0, 1, 0, 1, 1, 1, 0, 1, 0,
        1, 1, 1, 0, 1, 1, 0, 1, 1, 1, 0, 1, 0, 1, 0, 0, 0, 0, 0, 1, 0, 1, 1, 1, 0, 1, 1, 0, 1,
        1, 1, 0, 1, 0, 1, 1, 0, 0, 1, 0, 1, 0, 1, 1, 1, 0, 1, 1, 0, 0, 0, 0, 0, 1, 0, 1, 1, 1,
        1, 0, 0, 1, 0, 0, 0, 0, 0, 1, 1, 1, 1, 1, 1, 1, 1, 0, 1, 0, 1, 0, 1, 0, 1, 1, 1, 1, 1,
        1, 1, 0, 0, 0, 0, 0, 0, 0, 0, 1, 0, 1, 0, 0, 0, 0, 0, 0, 0, 0, 0, 0, 1, 0, 1, 1, 1, 1,
        1, 0, 0, 1, 1, 1, 0, 0, 1, 1, 1, 1, 1, 0, 0, 0, 0, 0, 1, 1, 0, 0, 1, 1, 0, 0, 0, 1, 1,
        0, 0, 1, 1, 1, 0, 1, 0, 0, 0, 1, 0, 0, 1, 0, 1, 1, 1, 0, 1, 1, 1, 0, 0, 1, 1, 1, 0, 0,
        1, 1, 0, 0, 1, 0, 1, 0, 0, 1, 1, 1, 1, 0, 1, 0, 1, 1, 0, 0, 1, 1, 0, 1, 1, 1, 1, 0, 1,
        0, 0, 0, 1, 0, 1, 1, 0, 0, 0, 0, 1, 0, 0, 0, 0, 0, 0, 0, 0, 1, 0, 0, 0, 0, 1, 1, 1, 1,
        1, 0, 0, 0, 1, 1, 1, 1, 1, 1, 1, 0, 0, 1, 1, 0, 1, 1, 1, 1, 0, 0, 1, 1, 0, 1, 0, 0, 0,
        0, 0, 1, 0, 1, 0, 1, 0, 1, 1, 0, 1, 0, 1, 1, 1, 0, 1, 0, 1, 1, 1, 0, 1, 0, 1, 1, 0, 1,
        1, 1, 1, 0, 1, 0, 0, 1, 1, 1, 0, 1, 1, 1, 0, 1, 0, 1, 0, 1, 0, 0, 0, 0, 1, 1, 1, 0, 0,
        0, 1, 0, 1, 1, 1, 0, 1, 0, 1, 1, 1, 1, 1, 0, 1, 1, 0, 0, 1, 0, 0, 1, 0, 0, 0, 0, 0, 1,
        0, 0, 0, 1, 0, 1, 1, 0, 0, 1, 1, 1, 0, 0, 1, 1, 1, 1, 1, 1, 1, 0, 1, 1, 0, 1, 0, 0, 1,
        0, 1, 0, 0, 1, 0,
    ];
    assert_eq!(
        qr.as_vec(),
        expected.into_iter().map(|v| v != 0).collect::<Vec<_>>()
    );
}

#[test]
fn pixel_accessors_match_the_grid() {
    let qr = qrcode_from_str("Hello, world!").unwrap();
    let side = qr.side_length();
    assert_eq!(side, 21);
    let grid = qr.as_vec();
    assert_eq!(grid.len(), side * side);
    for y in 0..side {
        for x in 0..side {
            assert_eq!(qr.pixel(x, y), Some(grid[y * side + x]));
            assert_eq!(qr.pixel_or_false(x, y), grid[y * side + x]);
        }
    }
    assert_eq!(qr.pixel(side, 0), None);
    assert_eq!(qr.pixel_or_false(0, side), false);
}

#[test]
fn binary_data_encodes() {
    let qr = qrcode_from_data(&[0u8, 1, 2, 3, 255]).unwrap();
    let side = qr.side_length();
    assert!((21..=177).contains(&side));
    assert_eq!(qr.as_vec().len(), side * side);
    // The finder pattern's top-left corner is always dark.
    assert_eq!(qr.pixel_or_false(0, 0), true);
}

#[test]
fn too_long_data_is_rejected() {
    let data = vec![0u8; 4000];
    assert_eq!(
        qrcode_from_data(&data),
        Err(QrCodeError::DataTooLong(4000))
    );
}
