use std::io::Cursor;

use forgequeue::domain::JobKind;
use forgequeue::errors::AppError;
use forgequeue::request::{bearer_token, client_ip, idempotency_key, sanitize_filename};
use forgequeue::upload::{accept_upload, detect_upload_kind, validate_image};
use image::{DynamicImage, ImageFormat, RgbImage};

fn png(width: u32, height: u32) -> Vec<u8> {
    let image = DynamicImage::ImageRgb8(RgbImage::new(width, height));
    let mut encoded = Cursor::new(Vec::new());
    image.write_to(&mut encoded, ImageFormat::Png).unwrap();
    encoded.into_inner()
}

fn validation_message(error: AppError) -> String {
    match error {
        AppError::Validation(message) => message,
        other => panic!("expected a validation error, got {other:?}"),
    }
}

#[test]
fn strips_path_from_uploaded_filename() {
    assert_eq!(sanitize_filename("C:\\fakepath\\report.pdf"), "report.pdf");
    assert_eq!(sanitize_filename("../../photo.png"), "photo.png");
}

#[test]
fn validates_idempotency_key_length() {
    let header: &[u8] = b"upload-123";
    assert_eq!(
        idempotency_key(Some(header)).unwrap().as_deref(),
        Some("upload-123")
    );
}

#[test]
fn image_pixel_limit_is_checked_before_full_decode() {
    let encoded = png(2, 2);
    assert!(validate_image(&encoded, 4).is_ok());
    assert!(validate_image(&encoded, 3).is_err());
    let (kind, content_type) = detect_upload_kind(&encoded, 4, 20).unwrap();
    assert_eq!(kind, JobKind::Image);
    assert_eq!(content_type, "image/png");
    assert!(detect_upload_kind(b"not really a png", 4, 20).is_err());
}

#[test]
fn sanitized_filenames_drop_controls_and_fall_back() {
    assert_eq!(sanitize_filename("  informe final.pdf  "), "  informe final.pdf  ");
    assert_eq!(sanitize_filename("/tmp/   "), "archivo");
    assert_eq!(sanitize_filename("a\u{0}b\nc.png"), "abc.png");
    assert_eq!(sanitize_filename("dir/"), "archivo");
    assert_eq!(sanitize_filename(""), "archivo");
    let long = "x".repeat(200);
    assert_eq!(sanitize_filename(&long).chars().count(), 120);
}

#[test]
fn idempotency_key_edge_cases() {
    assert_eq!(idempotency_key(None).unwrap(), None);
    let padded: &[u8] = b"  key-1  ";
    assert_eq!(idempotency_key(Some(padded)).unwrap().as_deref(), Some("key-1"));
    let blank: &[u8] = b"   ";
    assert_eq!(
        validation_message(idempotency_key(Some(blank)).unwrap_err()),
        "Idempotency-Key debe tener entre 1 y 128 caracteres."
    );
    let too_long = vec![b'k'; 129];
    assert!(idempotency_key(Some(&too_long)).is_err());
    let longest = vec![b'k'; 128];
    assert_eq!(idempotency_key(Some(&longest)).unwrap().unwrap().len(), 128);
    let invisible: &[u8] = b"key\x01";
    assert_eq!(
        validation_message(idempotency_key(Some(invisible)).unwrap_err()),
        "Idempotency-Key inválida."
    );
}

#[test]
fn bearer_token_requires_the_session_prefix() {
    let good: &[u8] = b"Bearer fq_abc";
    assert_eq!(bearer_token(Some(good)).as_deref(), Some("fq_abc"));
    let other: &[u8] = b"Bearer xyz";
    assert_eq!(bearer_token(Some(other)), None);
    let basic: &[u8] = b"Basic fq_abc";
    assert_eq!(bearer_token(Some(basic)), None);
    assert_eq!(bearer_token(None), None);
}

#[test]
fn client_ip_trusts_forwarded_header_only_when_configured() {
    let forwarded: &[u8] = b" 203.0.113.7 , 10.0.0.1";
    assert_eq!(client_ip(true, Some(forwarded), "127.0.0.1"), "203.0.113.7");
    assert_eq!(client_ip(false, Some(forwarded), "127.0.0.1"), "127.0.0.1");
    assert_eq!(client_ip(true, None, "127.0.0.1"), "127.0.0.1");
    let empty: &[u8] = b" , 10.0.0.1";
    assert_eq!(client_ip(true, Some(empty), "127.0.0.1"), "127.0.0.1");
}

#[test]
fn upload_detection_reports_each_refusal() {
    let encoded = png(3, 2);
    assert_eq!(
        validation_message(validate_image(&encoded, 5).unwrap_err()),
        "La imagen tiene 6 píxeles; el máximo es 5."
    );
    assert_eq!(
        validation_message(detect_upload_kind(b"plain text", 10, 10).unwrap_err()),
        "Formato de archivo desconocido."
    );
    let gif: &[u8] = b"GIF89a\x01\x00\x01\x00\x00\x00\x00;";
    assert_eq!(
        validation_message(detect_upload_kind(gif, 10, 10).unwrap_err()),
        "El formato image/gif no está permitido."
    );
    let corrupt: &[u8] = b"%PDF-1.4\ncorrupt";
    assert_eq!(
        validation_message(detect_upload_kind(corrupt, 10, 10).unwrap_err()),
        "PDF inválido: PDF structure is invalid"
    );
}

#[test]
fn accepted_upload_carries_name_type_and_digest() {
    let encoded = png(2, 2);
    let upload = accept_upload(Some("C:\\tmp\\foto.png"), &encoded, 1 << 20, 100, 5).unwrap();
    assert_eq!(upload.filename, "foto.png");
    assert_eq!(upload.kind, JobKind::Image);
    assert_eq!(upload.content_type, "image/png");
    assert_eq!(upload.sha256.len(), 64);
    let unnamed = accept_upload(None, &encoded, 1 << 20, 100, 5).unwrap();
    assert_eq!(unnamed.filename, "archivo");
    assert_eq!(
        validation_message(accept_upload(Some("x.png"), &[], 1 << 20, 100, 5).unwrap_err()),
        "El archivo está vacío."
    );
    assert!(accept_upload(Some("x.png"), &encoded, 10, 100, 5).is_err());
}

#[test]
fn sanitized_filenames_are_stable_and_clean() {
    let inputs = [
        "  informe final.pdf  ",
        "/tmp/   ",
        "a\u{0}b\nc.png",
        "dir/",
        "",
        "c:\\fotos\\vacaciones.png",
        "\u{7f}\u{85}\u{9f}",
        "\t\u{a0}",
    ];
    let long = "y/".repeat(30) + &"z".repeat(300);
    for input in inputs.iter().copied().chain(std::iter::once(long.as_str())) {
        let once = sanitize_filename(input);
        assert_eq!(sanitize_filename(&once), once);
        assert!(once.chars().count() <= 120);
        assert!(!once.trim().is_empty());
        assert!(once.chars().all(|c| c != '/' && c != '\\' && !c.is_control()));
    }
    assert_eq!(sanitize_filename("c:\\fotos\\vacaciones.png"), "vacaciones.png");
    assert_eq!(sanitize_filename("\u{7f}\u{85}\u{9f}"), "archivo");
}
