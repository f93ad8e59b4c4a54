use base64::Engine;
use coppy::clipfmt::{build_dib, file_drop_payload, set_clipboard_file};
use coppy::codec::{contains_bytes, make_png_data_uri, meta_is_jpeg, split_data_uri};
use coppy::raster::RgbaBuffer;

#[test]
fn split_takes_first_comma() {
    let uri = b"data:image/png;base64,QUJD";
    let (meta, payload) = split_data_uri(uri).unwrap();
    assert_eq!(meta, b"data:image/png;base64".to_vec());
    assert_eq!(payload, b"QUJD".to_vec());
}

#[test]
fn split_keeps_later_commas_in_payload() {
    let uri = b"data:,a,b";
    let (meta, payload) = split_data_uri(uri).unwrap();
    assert_eq!(meta, b"data:".to_vec());
    assert_eq!(payload, b"a,b".to_vec());
}

#[test]
fn split_without_comma_is_none() {
    assert!(split_data_uri(b"not a data uri").is_none());
}

#[test]
fn byte_search_finds_and_misses() {
    assert!(contains_bytes(b"data:image/jpeg;base64", b"image/jpeg"));
    assert!(contains_bytes(b"abc", b""));
    assert!(!contains_bytes(b"data:image/png;base64", b"image/jpeg"));
    assert!(!contains_bytes(b"ab", b"abc"));
}

#[test]
fn jpeg_metadata_detection() {
    assert!(meta_is_jpeg(b"data:image/jpeg;base64"));
    assert!(meta_is_jpeg(b"data:image/jpg;base64"));
    assert!(!meta_is_jpeg(b"data:image/png;base64"));
}

#[test]
fn data_uri_wraps_real_base64() {
    // The URI must carry the real encoding: splitting it and decoding the
    // payload with the base64 crate itself yields the input bytes back.
    let png = vec![137u8, 80, 78, 71, 13, 10, 26, 10, 1, 2, 3];
    let uri = make_png_data_uri(&png);
    assert!(uri.starts_with(b"data:image/png;base64,"));
    let (_, payload) = split_data_uri(&uri).unwrap();
    let decoded = base64::engine::general_purpose::STANDARD
        .decode(&payload)
        .unwrap();
    assert_eq!(decoded, png);
}

#[test]
fn dib_header_and_single_row() {
    // One row of two pixels: red-ish and blue-ish.
    let img = RgbaBuffer {
        width: 2,
        height: 1,
        bytes: vec![10, 20, 30, 40, 50, 60, 70, 80],
    };
    let dib = build_dib(&img);
    assert_eq!(dib.len(), 48);
    // biSize = 40.
    assert_eq!(&dib[0..4], &[40, 0, 0, 0]);
    // biWidth = 2, biHeight = 1.
    assert_eq!(&dib[4..8], &[2, 0, 0, 0]);
    assert_eq!(&dib[8..12], &[1, 0, 0, 0]);
    // biPlanes = 1, biBitCount = 32.
    assert_eq!(&dib[12..14], &[1, 0]);
    assert_eq!(&dib[14..16], &[32, 0]);
    // biCompression = 0, biSizeImage = 8.
    assert_eq!(&dib[16..20], &[0, 0, 0, 0]);
    assert_eq!(&dib[20..24], &[8, 0, 0, 0]);
    // Pixels: red and blue channels swap within each pixel.
    assert_eq!(&dib[40..48], &[30, 20, 10, 40, 70, 60, 50, 80]);
}

#[test]
fn dib_flips_rows_bottom_up() {
    // One column of two pixels: the bottom source row comes first.
    let img = RgbaBuffer {
        width: 1,
        height: 2,
        bytes: vec![1, 2, 3, 4, 5, 6, 7, 8],
    };
    let dib = build_dib(&img);
    assert_eq!(dib.len(), 48);
    assert_eq!(&dib[40..48], &[7, 6, 5, 8, 3, 2, 1, 4]);
}

#[test]
fn file_drop_payload_layout() {
    let path: Vec<u16> = "ab".encode_utf16().collect();
    let payload = file_drop_payload(&path);
    // Header, two wide characters, then the terminator and the list end.
    assert_eq!(payload.len(), 20 + 4 + 4);
    assert_eq!(&payload[0..4], &[20, 0, 0, 0]);
    assert_eq!(&payload[16..20], &[1, 0, 0, 0]);
    assert_eq!(&payload[20..24], &[b'a', 0, b'b', 0]);
    assert_eq!(&payload[24..28], &[0, 0, 0, 0]);
}

#[test]
fn file_drop_payload_wide_characters() {
    // A character above the byte range keeps its little-endian split.
    let path: Vec<u16> = vec![0x0141];
    let payload = file_drop_payload(&path);
    assert_eq!(payload.len(), 20 + 2 + 4);
    assert_eq!(&payload[20..22], &[0x41, 0x01]);
}

#[test]
fn file_drop_from_characters_matches_std_utf16() {
    // A path with an ASCII run, a two-byte character and a surrogate pair.
    let path_str = "C:\\tmp\\coppy ä\u{10348}.png";
    let path: Vec<char> = path_str.chars().collect();
    let payload = set_clipboard_file(&path);
    let expected: Vec<u16> = path_str.encode_utf16().collect();
    assert_eq!(payload.len(), 20 + 2 * expected.len() + 4);
    for (i, unit) in expected.iter().enumerate() {
        assert_eq!(payload[20 + 2 * i], (unit & 0xFF) as u8);
        assert_eq!(payload[20 + 2 * i + 1], (unit >> 8) as u8);
    }
    assert_eq!(&payload[payload.len() - 4..], &[0, 0, 0, 0]);
}
