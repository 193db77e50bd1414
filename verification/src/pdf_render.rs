//! Processing a PDF job: the document is opened with PDFium, held to the page limit, its first
//! pages are rendered as PNG previews and `metadata.json` records what was done.
use vstd::prelude::*;

use vstd::utf8::encode_utf8;

use crate::artifacts::{
    check_rendered_page_count, metadata_artifact, page_artifact, page_artifact_name,
    pdf_metadata_json, pdf_metadata_text, stored_dimension,
    too_many_pages_message, Artifact,
};
use crate::errors::ProcessingError;
use crate::rendered_page::{render_page, RenderedPage};
use crate::text::{concat2, owned};

verus! {

/// `pdfium_render::prelude::Pdfium`, bindings to a loaded PDFium library.
#[verifier::external_type_specification]
#[verifier::external_body]
pub struct ExPdfium(pdfium_render::prelude::Pdfium);

/// `pdfium_render::prelude::PdfDocument`, a document opened by PDFium.
#[verifier::external_type_specification]
#[verifier::external_body]
pub struct ExPdfDocument<'a>(pdfium_render::prelude::PdfDocument<'a>);

/// `Pdfium::load_pdf_from_byte_slice` without a password. Whether the document opens depends
/// on the PDFium library that was loaded, so nothing is stated of the result.
#[verifier::external_body]
fn open_document<'a>(pdfium: &'a pdfium_render::prelude::Pdfium, data: &'a [u8]) -> (r: Result<
    pdfium_render::prelude::PdfDocument<'a>,
    String,
>) {
    match pdfium.load_pdf_from_byte_slice(data, None) {
        Ok(document) => Ok(document),
        Err(error) => Err(error.to_string()),
    }
}

/// `PdfDocument::pages().len()`: the page count that PDFium reports. Nothing is stated of it.
#[verifier::external_body]
fn page_total(document: &pdfium_render::prelude::PdfDocument) -> (n: i32) {
    document.pages().len()
}

/// `dimensions` of an image, then `write_to` in PNG: its encoded bytes, width and height.
/// Nothing is stated of them.
#[verifier::external_body]
fn encode_png(picture: &image::DynamicImage) -> (r: Result<(Vec<u8>, u32, u32), String>) {
    let (w, h) = image::GenericImageView::dimensions(picture);
    let mut encoded = std::io::Cursor::new(Vec::new());
    match picture.write_to(&mut encoded, image::ImageFormat::Png) {
        Ok(()) => Ok((encoded.into_inner(), w, h)),
        Err(error) => Err(error.to_string()),
    }
}

/// The width a page preview is rendered to.
pub const PAGE_WIDTH: i32 = 1024;

/// The largest height of a page preview.
pub const PAGE_MAX_HEIGHT: i32 = 1448;

/// How many pages a PDF job renders: the first `preview_pages` of its `page_count` pages, none
/// when the count is not positive.
pub open spec fn rendered_page_total(page_count: int, preview_pages: int) -> int {
    if page_count <= 0 {
        0
    } else if page_count < preview_pages {
        page_count
    } else {
        preview_pages
    }
}

/// The requests handed to PDFium for a PDF job, in order: for each page it renders, the page's
/// index, the target width and the largest height.
pub open spec fn render_plan_spec(page_count: int, preview_pages: int) -> Seq<(i32, i32, i32)> {
    Seq::new(
        rendered_page_total(page_count, preview_pages) as nat,
        |k: int| (k as i32, PAGE_WIDTH, PAGE_MAX_HEIGHT),
    )
}

/// The render requests of a document with `page_count` pages whose first `preview_pages` pages
/// are previewed.
pub fn render_plan(page_count: i32, preview_pages: usize) -> (p: Vec<(i32, i32, i32)>)
    ensures
        p@ == render_plan_spec(page_count as int, preview_pages as int),
{
    let mut plan: Vec<(i32, i32, i32)> = Vec::new();
    let mut i: i32 = 0;
    while i < page_count && (i as usize) < preview_pages
        invariant
            0 <= i <= rendered_page_total(page_count as int, preview_pages as int),
            plan@.len() == i,
            forall|k: int| 0 <= k < i ==> #[trigger] plan@[k] == (k as i32, PAGE_WIDTH, PAGE_MAX_HEIGHT),
        decreases page_count - i,
    {
        plan.push((i, PAGE_WIDTH, PAGE_MAX_HEIGHT));
        i = i + 1;
    }
    assert(plan@ =~= render_plan_spec(page_count as int, preview_pages as int));
    plan
}

/// Renders the pages that [`render_plan`] asks for, in order; a page PDFium fails to render
/// ends the work with its error.
pub fn render_previews(
    document: &pdfium_render::prelude::PdfDocument,
    page_count: i32,
    preview_pages: usize,
) -> (r: Result<Vec<RenderedPage>, String>)
    ensures
        r matches Ok(pages) ==> {
            let plan = render_plan_spec(page_count as int, preview_pages as int);
            &&& pages@.len() == plan.len()
            &&& forall|k: int| 0 <= k < plan.len() ==> (#[trigger] pages@[k]).requested() == plan[k]
        },
        render_plan_spec(page_count as int, preview_pages as int).len() == 0 ==> (r matches Ok(
            pages,
        ) && pages@.len() == 0),
{
    let plan = render_plan(page_count, preview_pages);
    let mut pages: Vec<RenderedPage> = Vec::new();
    let mut k: usize = 0;
    while k < plan.len()
        invariant
            plan@ == render_plan_spec(page_count as int, preview_pages as int),
            k <= plan@.len(),
            pages@.len() == k,
            forall|j: int| 0 <= j < k ==> (#[trigger] pages@[j]).requested() == plan@[j],
        decreases plan@.len() - k,
    {
        let page = render_page(document, plan[k])?;
        pages.push(page);
        k = k + 1;
    }
    Ok(pages)
}

/// The artifacts of a PDF job with `page_count` pages: a PNG preview of each of its first
/// `preview_pages` pages, in order, then `metadata.json`.
pub open spec fn pdf_artifacts(
    a: Seq<Artifact>,
    sha256: Seq<char>,
    page_count: nat,
    preview_pages: nat,
) -> bool {
    let n = if page_count < preview_pages {
        page_count
    } else {
        preview_pages
    };
    &&& a.len() == n + 1
    &&& forall|i: int|
        0 <= i < n ==> {
            &&& (#[trigger] a[i]).name@ == page_artifact_name(i as nat)
            &&& a[i].content_type@ == "image/png"@
            &&& a[i].page_number == stored_dimension((i + 1) as nat)
        }
    &&& a[n as int].name@ == "metadata.json"@
    &&& a[n as int].content_type@ == "application/json"@
    &&& a[n as int].bytes@ == encode_utf8(pdf_metadata_text(sha256, page_count, preview_pages))
    &&& a[n as int].width is None && a[n as int].height is None
    &&& a[n as int].page_number is None
}

/// The message of a page count that PDFium reports below zero.
pub open spec fn bad_count_message() -> Seq<char> {
    "El PDF tiene un conteo de páginas inválido."@
}

/// What the page count that PDFium reports decides: a negative count, or one above
/// `max_pages`, refuses the document with this message; otherwise it is rendered.
pub open spec fn page_count_refusal(total: int, max_pages: nat) -> Option<Seq<char>> {
    if total < 0 {
        Some(bad_count_message())
    } else if total > max_pages {
        Some(too_many_pages_message(total as nat, max_pages))
    } else {
        None
    }
}

/// Holds the page count `total` that PDFium reports to the page limit: the count to render, or
/// the refusal of [`page_count_refusal`].
pub fn pdf_page_verdict(total: i32, max_pages: usize) -> (r: Result<usize, ProcessingError>)
    ensures
        match page_count_refusal(total as int, max_pages as nat) {
            Some(msg) => r matches Err(ProcessingError::Invalid(m)) && m@ == msg,
            None => r matches Ok(n) && n == total,
        },
{
    if total < 0 {
        return Err(ProcessingError::Invalid(owned("El PDF tiene un conteo de páginas inválido.")));
    }
    let page_count = total as usize;
    match check_rendered_page_count(page_count, max_pages) {
        Ok(()) => Ok(page_count),
        Err(e) => Err(e),
    }
}

/// Renders a PDF job with `pdfium`, and hands back beside the outcome the page count PDFium
/// reported (`None` when it could not open the document). What PDFium makes of the document is
/// its own affair; the function states what follows from what it reports: a document PDFium
/// cannot open is invalid input; the reported count is held to the limit by
/// [`pdf_page_verdict`]; otherwise the pages of [`render_plan`] are rendered by
/// [`render_previews`], each preview is named after the page its request asked for,
/// `metadata.json` follows, and a failure to render or encode a page is temporary. A document
/// with nothing to preview is always rendered.
pub fn render_pdf(
    pdfium: &pdfium_render::prelude::Pdfium,
    bytes: &[u8],
    sha256: &str,
    preview_pages: usize,
    max_pages: usize,
) -> (r: (Result<Vec<Artifact>, ProcessingError>, Option<i32>))
    ensures
        r.1 is None ==> exists|detail: Seq<char>|
            #![trigger "PDF inválido: "@ + detail]
            r.0 matches Err(ProcessingError::Invalid(m)) && m@ == "PDF inválido: "@ + detail,
        r.1 matches Some(total) ==> match page_count_refusal(total as int, max_pages as nat) {
            Some(msg) => r.0 matches Err(ProcessingError::Invalid(m)) && m@ == msg,
            None => {
                &&& (r.0 matches Ok(a) ==> pdf_artifacts(
                    a@,
                    sha256@,
                    total as nat,
                    preview_pages as nat,
                ))
                &&& (r.0 matches Err(e) ==> e is Temporary)
                &&& (rendered_page_total(total as int, preview_pages as int) == 0 ==> r.0 is Ok)
            },
        },
{
    let document = match open_document(pdfium, bytes) {
        Ok(document) => document,
        Err(error) => {
            let m = concat2("PDF inválido: ", error.as_str());
            assert(m@ == "PDF inválido: "@ + error@);
            return (Err(ProcessingError::Invalid(m)), None);
        },
    };
    let total = page_total(&document);
    let page_count = match pdf_page_verdict(total, max_pages) {
        Ok(n) => n,
        Err(e) => {
            return (Err(e), Some(total));
        },
    };
    let pages = match render_previews(&document, total, preview_pages) {
        Ok(pages) => pages,
        Err(error) => {
            return (Err(ProcessingError::Temporary(error)), Some(total));
        },
    };
    let ghost n = rendered_page_total(total as int, preview_pages as int);
    let mut artifacts: Vec<Artifact> = Vec::new();
    let mut i: usize = 0;
    while i < pages.len()
        invariant
            0 <= total && total as int <= max_pages as int,
            page_count == total,
            pages@.len() == n,
            n == rendered_page_total(total as int, preview_pages as int),
            n == (if page_count < preview_pages {
                page_count as int
            } else {
                preview_pages as int
            }),
            forall|k: int|
                0 <= k < n ==> (#[trigger] pages@[k]).requested() == render_plan_spec(
                    total as int,
                    preview_pages as int,
                )[k],
            i <= n,
            artifacts@.len() == i,
            forall|k: int|
                0 <= k < i ==> {
                    &&& (#[trigger] artifacts@[k]).name@ == page_artifact_name(k as nat)
                    &&& artifacts@[k].content_type@ == "image/png"@
                    &&& artifacts@[k].page_number == stored_dimension((k + 1) as nat)
                },
        decreases n - i,
    {
        let page = &pages[i];
        let (index, _, _) = page.request();
        assert(index == i);
        let (png, w, h) = match encode_png(page.image()) {
            Ok(encoded) => encoded,
            Err(error) => {
                return (Err(ProcessingError::Temporary(error)), Some(total));
            },
        };
        artifacts.push(page_artifact(index as usize, png, w, h));
        i = i + 1;
    }
    let metadata = pdf_metadata_json(sha256, page_count, preview_pages);
    artifacts.push(metadata_artifact(metadata.as_str()));
    let r: Result<Vec<Artifact>, ProcessingError> = Ok(artifacts);
    assert(r matches Ok(a) && pdf_artifacts(a@, sha256@, page_count as nat, preview_pages as nat));
    (r, Some(total))
}

/// Rendering the same document again produces artifacts under the same names, so a repeated
/// attempt overwrites its outputs rather than adding to them.
pub proof fn lemma_pdf_artifact_names_are_fixed(
    a: Seq<Artifact>,
    b: Seq<Artifact>,
    sha256: Seq<char>,
    page_count: nat,
    preview_pages: nat,
)
    requires
        pdf_artifacts(a, sha256, page_count, preview_pages),
        pdf_artifacts(b, sha256, page_count, preview_pages),
    ensures
        a.len() == b.len(),
        forall|i: int| 0 <= i < a.len() ==> (#[trigger] a[i]).name@ == b[i].name@,
{
    let n = if page_count < preview_pages {
        page_count
    } else {
        preview_pages
    };
    assert forall|i: int| 0 <= i < a.len() implies (#[trigger] a[i]).name@ == b[i].name@ by {
        if i < n {
            assert(a[i].name@ == page_artifact_name(i as nat));
            assert(b[i].name@ == page_artifact_name(i as nat));
        }
    }
}

} // verus!
