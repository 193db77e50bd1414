use forgequeue::artifacts::{
    check_rendered_page_count, image_artifact, image_metadata_json, metadata_artifact,
    page_artifact, pdf_metadata_json, preview_page_count,
};
use forgequeue::errors::ProcessingError;
use forgequeue::pdf_render::{pdf_page_verdict, render_plan, PAGE_MAX_HEIGHT, PAGE_WIDTH};
use forgequeue::worker_loop::{worker_next, WorkerAction};
use forgequeue::upload::{check_page_count, validate_pdf_page_count, PageCountError};
use lopdf::{Dictionary, Document, Object};
use serde_json::Value;

fn pdf_with_pages(count: usize) -> Vec<u8> {
    let mut document = Document::with_version("1.4");
    let pages_id = document.new_object_id();
    let mut page_ids = Vec::new();
    for _ in 0..count {
        let mut page = Dictionary::new();
        page.set("Type", "Page");
        page.set("Parent", pages_id);
        page.set(
            "MediaBox",
            vec![0.into(), 0.into(), 612.into(), 792.into()],
        );
        page_ids.push(document.add_object(page));
    }
    let mut pages = Dictionary::new();
    pages.set("Type", "Pages");
    pages.set(
        "Kids",
        page_ids.iter().copied().map(Object::Reference).collect::<Vec<_>>(),
    );
    pages.set("Count", count as i64);
    document.objects.insert(pages_id, Object::Dictionary(pages));
    let mut catalog = Dictionary::new();
    catalog.set("Type", "Catalog");
    catalog.set("Pages", pages_id);
    let catalog_id = document.add_object(catalog);
    document.trailer.set("Root", catalog_id);
    let mut bytes = Vec::new();
    document.save_to(&mut bytes).unwrap();
    bytes
}

fn object(entries: Vec<(&str, Value)>) -> Value {
    let mut map = serde_json::Map::new();
    for (key, value) in entries {
        map.insert(key.to_owned(), value);
    }
    Value::Object(map)
}

#[test]
fn image_artifact_records_dimensions() {
    let artifact = image_artifact("test.webp", vec![1, 2], 10, 20);
    assert_eq!(artifact.width, Some(10));
    assert_eq!(artifact.height, Some(20));
    assert_eq!(artifact.content_type, "image/webp");
}

#[test]
fn pdf_page_limit_rejects_excessive_and_corrupt_documents() {
    let pdf = pdf_with_pages(3);
    assert_eq!(validate_pdf_page_count(&pdf, 3).unwrap(), 3);
    assert!(validate_pdf_page_count(&pdf, 2).is_err());
    assert!(validate_pdf_page_count(b"%PDF-1.4\ncorrupt", 20).is_err());
}

#[test]
fn page_count_errors_name_the_limit() {
    let pdf = pdf_with_pages(3);
    let error = validate_pdf_page_count(&pdf, 2).unwrap_err();
    assert_eq!(error, PageCountError::TooMany { pages: 3, max_pages: 2 });
    assert_eq!(error.message(), "PDF has 3 pages; maximum is 2");
    assert_eq!(
        validate_pdf_page_count(b"%PDF-1.4\ncorrupt", 20).unwrap_err(),
        PageCountError::Unreadable
    );
    assert_eq!(check_page_count(Some(0), 5), Err(PageCountError::NoPages));
    assert_eq!(PageCountError::NoPages.message(), "PDF has no pages");
    assert_eq!(check_page_count(None, 5), Err(PageCountError::Unreadable));
    assert_eq!(check_page_count(Some(5), 5), Ok(5));
}

#[test]
fn oversized_dimensions_are_not_recorded() {
    let artifact = image_artifact("big.webp", Vec::new(), u32::MAX, 7);
    assert_eq!(artifact.width, None);
    assert_eq!(artifact.height, Some(7));
    assert_eq!(artifact.page_number, None);
}

#[test]
fn page_previews_are_numbered_from_one() {
    let artifact = page_artifact(0, vec![9], 612, 792);
    assert_eq!(artifact.name, "page-1.png");
    assert_eq!(artifact.content_type, "image/png");
    assert_eq!(artifact.page_number, Some(1));
    assert_eq!(page_artifact(11, Vec::new(), 1, 1).name, "page-12.png");
    assert_eq!(preview_page_count(2, 3), 2);
    assert_eq!(preview_page_count(7, 3), 3);
}

#[test]
fn rendering_refuses_documents_over_the_limit() {
    assert!(check_rendered_page_count(20, 20).is_ok());
    match check_rendered_page_count(21, 20) {
        Err(ProcessingError::Invalid(message)) => {
            assert_eq!(message, "El PDF tiene 21 páginas; el máximo es 20.")
        }
        other => panic!("unexpected {other:?}"),
    }
}

#[test]
fn image_metadata_matches_pretty_json() {
    let text = image_metadata_json("ab\"c\\\u{1}", 640, 480, 320, 240, 1600, 1200);
    let expected = object(vec![
        ("kind", Value::from("image")),
        ("sha256", Value::from("ab\"c\\\u{1}")),
        ("width", Value::from(640)),
        ("height", Value::from(480)),
        (
            "thumbnail",
            object(vec![("width", Value::from(320)), ("height", Value::from(240))]),
        ),
        (
            "preview",
            object(vec![("width", Value::from(1600)), ("height", Value::from(1200))]),
        ),
    ]);
    assert_eq!(text, serde_json::to_string_pretty(&expected).unwrap());
    let artifact = metadata_artifact(&text);
    assert_eq!(artifact.name, "metadata.json");
    assert_eq!(artifact.content_type, "application/json");
    assert_eq!(artifact.bytes, text.as_bytes());
}

#[test]
fn pdf_metadata_matches_pretty_json() {
    let text = pdf_metadata_json("0123abcd", 7, 3);
    let expected = object(vec![
        ("kind", Value::from("pdf")),
        ("sha256", Value::from("0123abcd")),
        ("page_count", Value::from(7)),
        ("preview_pages", Value::from(3)),
    ]);
    assert_eq!(text, serde_json::to_string_pretty(&expected).unwrap());
    assert!(pdf_metadata_json("x", 2, 3).contains("\"preview_pages\": 2"));
}

#[test]
fn render_plan_asks_for_the_first_pages_in_order() {
    assert_eq!(
        render_plan(5, 3),
        vec![(0, PAGE_WIDTH, PAGE_MAX_HEIGHT), (1, 1024, 1448), (2, 1024, 1448)]
    );
    assert_eq!(render_plan(2, 3), vec![(0, 1024, 1448), (1, 1024, 1448)]);
    assert_eq!(render_plan(0, 3), Vec::new());
    assert_eq!(render_plan(-4, 3), Vec::new());
    assert_eq!(render_plan(9, 0), Vec::new());
}

#[test]
fn worker_drains_the_backlog_and_sleeps_only_when_idle() {
    assert_eq!(worker_next(false, true), WorkerAction::Process);
    assert_eq!(worker_next(true, true), WorkerAction::Process);
    assert_eq!(worker_next(true, false), WorkerAction::Stop);
    assert_eq!(worker_next(false, false), WorkerAction::Sleep);
}

#[test]
fn reported_page_count_is_held_to_the_limit() {
    assert_eq!(pdf_page_verdict(0, 20).unwrap(), 0);
    assert_eq!(pdf_page_verdict(20, 20).unwrap(), 20);
    match pdf_page_verdict(21, 20) {
        Err(ProcessingError::Invalid(m)) => assert_eq!(m, "El PDF tiene 21 páginas; el máximo es 20."),
        other => panic!("unexpected {other:?}"),
    }
    match pdf_page_verdict(-1, 20) {
        Err(ProcessingError::Invalid(m)) => assert_eq!(m, "El PDF tiene un conteo de páginas inválido."),
        other => panic!("unexpected {other:?}"),
    }
}
