use steamguard_qr_login::scanner::{classify_decoded, contains_pattern, scan, Frame, ScanResult};

/// Renders `data` as a QR code into a luminance frame the scanner can read.
fn qr_frame(data: &str) -> Frame {
    let code = qrcode::QrCode::new(data.as_bytes()).expect("encodable test data");
    let img = code.render::<image::Luma<u8>>().build();
    let (w, h) = (img.width() as usize, img.height() as usize);
    Frame::new(w, h, img.into_raw()).expect("buffer matches dimensions")
}

fn blank_frame(width: usize, height: usize) -> Frame {
    Frame::new(width, height, vec![255u8; width * height]).expect("buffer matches dimensions")
}

#[test]
fn scan_returns_exact_payload_of_matching_code() {
    let frame = qr_frame("https://s.team/q/ABC");
    match scan(&frame) {
        ScanResult::Decoded(s) => assert_eq!(s, "https://s.team/q/ABC"),
        ScanResult::NotFound => panic!("a well-formed matching code must be decoded"),
    }
}

#[test]
fn scan_rejects_code_of_another_scheme() {
    let frame = qr_frame("https://example.com/q/ABC");
    assert!(matches!(scan(&frame), ScanResult::NotFound));
}

#[test]
fn scan_finds_nothing_on_a_blank_frame() {
    let frame = blank_frame(120, 90);
    assert!(matches!(scan(&frame), ScanResult::NotFound));
}

#[test]
fn classify_keeps_exact_text_of_matching_code() {
    let r = classify_decoded(Some("https://s.team/q/XYZ".to_string()));
    match r {
        ScanResult::Decoded(s) => assert_eq!(s, "https://s.team/q/XYZ"),
        ScanResult::NotFound => panic!("matching scheme must be kept"),
    }
}

#[test]
fn classify_accepts_scheme_anywhere_in_the_text() {
    let r = classify_decoded(Some("see https://s.team/q/XYZ now".to_string()));
    match r {
        ScanResult::Decoded(s) => assert_eq!(s, "see https://s.team/q/XYZ now"),
        ScanResult::NotFound => panic!("embedded scheme must be kept"),
    }
}

#[test]
fn classify_rejects_other_scheme_and_missing_code() {
    assert!(matches!(
        classify_decoded(Some("https://example.com/q/ABC".to_string())),
        ScanResult::NotFound
    ));
    assert!(matches!(classify_decoded(Some(String::new())), ScanResult::NotFound));
    assert!(matches!(classify_decoded(None), ScanResult::NotFound));
}

#[test]
fn contains_pattern_basic_cases() {
    assert!(contains_pattern("abcdef", "cde"));
    assert!(contains_pattern("abcdef", "abcdef"));
    assert!(contains_pattern("abcdef", ""));
    assert!(contains_pattern("", ""));
    assert!(!contains_pattern("abc", "abcd"));
    assert!(!contains_pattern("abcdef", "cdx"));
    assert!(!contains_pattern("", "a"));
}

#[test]
fn frame_new_rejects_mismatched_buffer() {
    assert!(Frame::new(10, 10, vec![0u8; 99]).is_none());
    assert!(Frame::new(10, 10, vec![0u8; 100]).is_some());
    assert!(Frame::new(0, 0, Vec::new()).is_some());
}
