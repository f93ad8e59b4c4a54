use base64::Engine;
use coppy::monitor::{image_fingerprint, image_to_data_url, ClipKind, MonitorState};
use coppy::raster::{decode_image_data_uri, reencode_png_from_data_uri, RgbaBuffer, UriImageError};
use coppy::save::{save_image_payload, FileExt};

fn sample_image() -> RgbaBuffer {
    RgbaBuffer {
        width: 2,
        height: 2,
        bytes: vec![
            255, 0, 0, 255, // red
            0, 255, 0, 255, // green
            0, 0, 255, 255, // blue
            10, 20, 30, 255, // grey-ish
        ],
    }
}

fn sample_data_uri() -> Vec<u8> {
    let (_, uri) = image_to_data_url(&sample_image()).unwrap();
    uri
}

#[test]
fn fingerprint_ignores_interior_bytes() {
    // Same length, same first, middle and last byte: the same item.
    let a = RgbaBuffer { width: 2, height: 1, bytes: vec![1, 2, 3, 4, 5, 6, 7, 8] };
    let b = RgbaBuffer { width: 2, height: 1, bytes: vec![1, 9, 9, 9, 5, 9, 9, 8] };
    assert_eq!(image_fingerprint(&a), image_fingerprint(&b));
}

#[test]
fn fingerprint_of_empty_buffer_is_dimension_only() {
    let a = RgbaBuffer { width: 0, height: 0, bytes: vec![] };
    let b = RgbaBuffer { width: 0, height: 0, bytes: vec![] };
    assert_eq!(image_fingerprint(&a), image_fingerprint(&b));
}

#[test]
fn data_uri_decodes_back_to_the_image() {
    let img = sample_image();
    let uri = sample_data_uri();
    assert!(uri.starts_with(b"data:image/png;base64,"));
    let back = decode_image_data_uri(&uri).unwrap();
    assert_eq!(back.width, img.width);
    assert_eq!(back.height, img.height);
    assert_eq!(back.bytes, img.bytes);
}

#[test]
fn save_round_trips_pixel_content() {
    // A valid PNG data URI: the saved bytes decode to the same pixels.
    let img = sample_image();
    let uri = sample_data_uri();
    let (saved, ext) = save_image_payload(&uri).unwrap();
    assert_eq!(ext, FileExt::Png);
    let decoded = image::load_from_memory(&saved).unwrap().to_rgba8();
    assert_eq!(decoded.dimensions(), (img.width, img.height));
    assert_eq!(decoded.into_raw(), img.bytes);
}

#[test]
fn reencode_produces_decodable_png() {
    let img = sample_image();
    let uri = sample_data_uri();
    let png = reencode_png_from_data_uri(&uri).unwrap();
    let decoded = image::load_from_memory(&png).unwrap().to_rgba8();
    assert_eq!(decoded.dimensions(), (img.width, img.height));
    assert_eq!(decoded.into_raw(), img.bytes);
}

#[test]
fn jpeg_payload_is_saved_as_it_decoded() {
    // The JPEG branch writes the decoded payload untouched.
    let body = vec![1u8, 2, 3, 4];
    let b64 = base64::engine::general_purpose::STANDARD.encode(&body);
    let mut uri = b"data:image/jpeg;base64,".to_vec();
    uri.extend_from_slice(b64.as_bytes());
    let (saved, ext) = save_image_payload(&uri).unwrap();
    assert_eq!(ext, FileExt::Jpg);
    assert_eq!(saved, body);
}

#[test]
fn malformed_inputs_get_their_exact_errors() {
    assert_eq!(
        decode_image_data_uri(b"no comma here").unwrap_err(),
        UriImageError::NotADataUri
    );
    assert_eq!(
        decode_image_data_uri(b"data:image/png;base64,!!!").unwrap_err(),
        UriImageError::InvalidBase64
    );
    // Valid base64 of bytes that are no image.
    let b64 = base64::engine::general_purpose::STANDARD.encode([0u8, 1, 2, 3]);
    let mut uri = b"data:image/png;base64,".to_vec();
    uri.extend_from_slice(b64.as_bytes());
    assert_eq!(
        decode_image_data_uri(&uri).unwrap_err(),
        UriImageError::UnreadableImage
    );
    assert_eq!(
        save_image_payload(&uri).unwrap_err(),
        UriImageError::UnreadableImage
    );
}

#[test]
fn monitor_emits_new_text_once() {
    let mut m = MonitorState::new();
    // A non-empty text different from the last observed one: one snapshot.
    let s = m.poll_tick(Some("hello".to_string()), None).unwrap();
    assert_eq!(s.kind, ClipKind::Text);
    assert_eq!(s.text_value.as_deref(), Some("hello"));
    assert!(s.image_fingerprint.is_none());
    // Unchanged clipboard: nothing more.
    assert!(m.poll_tick(Some("hello".to_string()), None).is_none());
    assert!(m.poll_tick(Some("hello".to_string()), None).is_none());
    // A different text is a change again.
    assert!(m.poll_tick(Some("world".to_string()), None).is_some());
}

#[test]
fn monitor_swallows_empty_text() {
    let mut m = MonitorState::new();
    assert!(m.poll_tick(Some(String::new()), None).is_none());
}

#[test]
fn monitor_emits_image_changes_by_fingerprint() {
    let mut m = MonitorState::new();
    let (fp, uri) = image_to_data_url(&sample_image()).unwrap();
    let s = m.poll_tick(None, Some((fp, uri.clone()))).unwrap();
    assert_eq!(s.kind, ClipKind::Image);
    assert_eq!(s.image_fingerprint, Some(fp));
    assert_eq!(s.raw_bytes.as_deref(), Some(uri.as_slice()));
    // The same fingerprint is the same item: no re-emission.
    assert!(m.poll_tick(None, Some((fp, uri.clone()))).is_none());
    // Text takes priority and clears the remembered fingerprint.
    assert!(m.poll_tick(Some("t".to_string()), Some((fp, uri.clone()))).is_some());
    assert_eq!(m.last_image_fingerprint, 0);
    // So the image counts as a change again on the next image-only tick.
    assert!(m.poll_tick(None, Some((fp, uri))).is_some());
}

#[test]
fn monitor_initial_pass_seeds_current_content() {
    let mut m = MonitorState::new();
    // The startup pass emits even an empty text.
    let s = m.initial_tick(Some(String::new()), None).unwrap();
    assert_eq!(s.kind, ClipKind::Text);
    assert_eq!(s.text_value.as_deref(), Some(""));

    let mut m2 = MonitorState::new();
    let (fp, uri) = image_to_data_url(&sample_image()).unwrap();
    let s2 = m2.initial_tick(None, Some((fp, uri))).unwrap();
    assert_eq!(s2.kind, ClipKind::Image);
    assert_eq!(m2.last_image_fingerprint, fp);

    let mut m3 = MonitorState::new();
    assert!(m3.initial_tick(None, None).is_none());
}

#[test]
fn malformed_buffers_yield_none_without_panic() {
    // A buffer too short for its dimensions is no image to encode.
    let short = RgbaBuffer { width: 2, height: 2, bytes: vec![1, 2, 3] };
    assert!(image_to_data_url(&short).is_none());
    // A zero dimension is refused by the encoder.
    let flat = RgbaBuffer { width: 0, height: 3, bytes: vec![] };
    assert!(image_to_data_url(&flat).is_none());
}

#[test]
fn valid_image_always_encodes() {
    // A well-formed image with positive dimensions always yields a URI.
    let img = RgbaBuffer { width: 1, height: 1, bytes: vec![9, 9, 9, 255] };
    assert!(image_to_data_url(&img).is_some());
}
