//! Accepting an uploaded file: its type is detected from its content, images are held to a
//! pixel limit before any full decode, and PDFs to a page limit.
use vstd::prelude::*;

use crate::digest::{hex_sha256, sha256_digest};
use crate::domain::JobKind;
use crate::errors::AppError;
use crate::format::{bytes_hex_text, dec_text, push_decimal};
use crate::policy::{check_upload_size, upload_limit_message};
use crate::request::{opt_string_view, sanitize_filename, sanitized_filename};
use crate::text::{concat2, concat3, owned, str_equal};

verus! {

// ---------------------------------------------------------------------------
// Calls into the detection and decoding crates.
// ---------------------------------------------------------------------------

/// The MIME type that `infer` recognises from the leading bytes of `data`.
pub uninterp spec fn detected_mime(data: Seq<u8>) -> Option<Seq<char>>;

/// `infer::get(data)` and its `mime_type()`: the MIME type recognised from the content.
#[verifier::external_body]
fn infer_mime(data: &[u8]) -> (m: Option<String>)
    ensures
        opt_string_view(m) == detected_mime(data@),
{
    match infer::get(data) {
        Some(t) => Some(t.mime_type().to_owned()),
        None => None,
    }
}

/// The width and height that `image` reads from an image's header, without decoding it.
pub uninterp spec fn probed_dimensions(data: Seq<u8>) -> Option<(u32, u32)>;

/// `image::ImageReader::with_guessed_format` then `into_dimensions`: the size stated in the
/// image header. The text of the error is not stated.
#[verifier::external_body]
fn image_dimensions(data: &[u8]) -> (r: Result<(u32, u32), String>)
    ensures
        match r {
            Ok(d) => probed_dimensions(data@) == Some(d),
            Err(_) => probed_dimensions(data@) is None,
        },
{
    let reader = match image::ImageReader::new(std::io::Cursor::new(data)).with_guessed_format() {
        Ok(reader) => reader,
        Err(error) => return Err(error.to_string()),
    };
    match reader.into_dimensions() {
        Ok(dimensions) => Ok(dimensions),
        Err(error) => Err(error.to_string()),
    }
}

/// The number of pages that `lopdf` finds in a PDF, if it can read its structure.
pub uninterp spec fn pdf_page_total(data: Seq<u8>) -> Option<usize>;

/// `lopdf::Document::load_mem` then `get_pages().len()`: the page count of the document.
#[verifier::external_body]
fn pdf_page_count(data: &[u8]) -> (r: Option<usize>)
    ensures
        r == pdf_page_total(data@),
{
    match lopdf::Document::load_mem(data) {
        Ok(document) => Some(document.get_pages().len()),
        Err(_) => None,
    }
}

// ---------------------------------------------------------------------------
// Page limit of PDFs.
// ---------------------------------------------------------------------------

/// Why a PDF is refused.
#[derive(Debug, Clone, Copy, PartialEq, Eq, Structural)]
pub enum PageCountError {
    /// The PDF structure cannot be read.
    Unreadable,
    /// The document has no page.
    NoPages,
    /// The document has more pages than allowed.
    TooMany { pages: usize, max_pages: usize },
}

pub open spec fn page_count_message(e: PageCountError) -> Seq<char> {
    match e {
        PageCountError::Unreadable => "PDF structure is invalid"@,
        PageCountError::NoPages => "PDF has no pages"@,
        PageCountError::TooMany { pages, max_pages } => "PDF has "@ + dec_text(pages as nat)
            + " pages; maximum is "@ + dec_text(max_pages as nat),
    }
}

impl PageCountError {
    /// The message of the error.
    pub fn message(&self) -> (m: String)
        ensures
            m@ == page_count_message(*self),
    {
        match self {
            PageCountError::Unreadable => owned("PDF structure is invalid"),
            PageCountError::NoPages => owned("PDF has no pages"),
            PageCountError::TooMany { pages, max_pages } => {
                let mut m = owned("PDF has ");
                push_decimal(&mut m, *pages as u64);
                m.append(" pages; maximum is ");
                push_decimal(&mut m, *max_pages as u64);
                m
            },
        }
    }
}

/// The verdict on a page count (`None` when the document could not be read).
pub open spec fn spec_check_page_count(pages: Option<usize>, max_pages: usize) -> Result<
    usize,
    PageCountError,
> {
    match pages {
        None => Err(PageCountError::Unreadable),
        Some(n) => if n == 0 {
            Err(PageCountError::NoPages)
        } else if n > max_pages {
            Err(PageCountError::TooMany { pages: n, max_pages })
        } else {
            Ok(n)
        },
    }
}

/// Holds a page count to the limit: a PDF must have between one and `max_pages` pages.
pub fn check_page_count(pages: Option<usize>, max_pages: usize) -> (r: Result<usize, PageCountError>)
    ensures
        r == spec_check_page_count(pages, max_pages),
        pages is None ==> r == Err::<usize, PageCountError>(PageCountError::Unreadable),
        pages is Some && 1 <= pages->Some_0 <= max_pages ==> r == Ok::<usize, PageCountError>(
            pages->Some_0,
        ),
        pages is Some && pages->Some_0 > max_pages && pages->Some_0 >= 1 ==> r == Err::<
            usize,
            PageCountError,
        >(PageCountError::TooMany { pages: pages->Some_0, max_pages }),
        (r == Err::<usize, PageCountError>(PageCountError::NoPages)) <==> (pages == Some(0usize)),
{
    match pages {
        None => Err(PageCountError::Unreadable),
        Some(n) => if n == 0 {
            Err(PageCountError::NoPages)
        } else if n > max_pages {
            Err(PageCountError::TooMany { pages: n, max_pages })
        } else {
            Ok(n)
        },
    }
}

/// The page count of a PDF, if it is readable and has between one and `max_pages` pages.
pub fn validate_pdf_page_count(bytes: &[u8], max_pages: usize) -> (r: Result<
    usize,
    PageCountError,
>)
    ensures
        r == spec_check_page_count(pdf_page_total(bytes@), max_pages),
{
    check_page_count(pdf_page_count(bytes), max_pages)
}

// ---------------------------------------------------------------------------
// Pixel limit of images.
// ---------------------------------------------------------------------------

pub open spec fn pixel_limit_message(pixels: nat, max_pixels: u64) -> Seq<char> {
    "La imagen tiene "@ + dec_text(pixels) + " píxeles; el máximo es "@ + dec_text(
        max_pixels as nat,
    ) + "."@
}

/// Holds an image's size to the pixel limit.
pub fn check_image_pixels(width: u32, height: u32, max_pixels: u64) -> (r: Result<(), AppError>)
    ensures
        width * height <= max_pixels ==> r is Ok,
        width * height > max_pixels ==> (r matches Err(AppError::Validation(m)) && m@
            == pixel_limit_message((width * height) as nat, max_pixels)),
{
    assert((width as u64) * (height as u64) <= 0xffff_ffffu64 * 0xffff_ffffu64) by (nonlinear_arith);
    let pixels = (width as u64) * (height as u64);
    if pixels > max_pixels {
        let mut m = owned("La imagen tiene ");
        push_decimal(&mut m, pixels);
        m.append(" píxeles; el máximo es ");
        push_decimal(&mut m, max_pixels);
        m.append(".");
        return Err(AppError::Validation(m));
    }
    Ok(())
}

/// Checks an image from its header alone: it must state its size, and have no more than
/// `max_pixels` pixels.
pub fn validate_image(bytes: &[u8], max_pixels: u64) -> (r: Result<(), AppError>)
    ensures
        match probed_dimensions(bytes@) {
            None => exists|detail: Seq<char>|
                #![trigger "Imagen inválida: "@ + detail]
                r matches Err(AppError::Validation(m)) && m@ == "Imagen inválida: "@ + detail,
            Some((w, h)) => if w * h <= max_pixels {
                r is Ok
            } else {
                r matches Err(AppError::Validation(m)) && m@ == pixel_limit_message(
                    (w * h) as nat,
                    max_pixels,
                )
            },
        },
{
    match image_dimensions(bytes) {
        Err(error) => {
            let m = concat2("Imagen inválida: ", error.as_str());
            Err(AppError::Validation(m))
        },
        Ok((width, height)) => check_image_pixels(width, height, max_pixels),
    }
}

// ---------------------------------------------------------------------------
// Upload type.
// ---------------------------------------------------------------------------

/// The image types accepted.
pub open spec fn is_image_mime(m: Seq<char>) -> bool {
    m == "image/jpeg"@ || m == "image/png"@ || m == "image/webp"@
}

pub open spec fn is_pdf_mime(m: Seq<char>) -> bool {
    m == "application/pdf"@
}

/// The verdict on an upload, given what the detection crates report on it: the job kind and
/// MIME type, or the error answered.
pub open spec fn upload_verdict(
    mime: Option<Seq<char>>,
    dims: Option<(u32, u32)>,
    pages: Option<usize>,
    max_image_pixels: u64,
    max_pdf_pages: usize,
    r: Result<(JobKind, String), AppError>,
) -> bool {
    match mime {
        None => r matches Err(AppError::Validation(m)) && m@ == "Formato de archivo desconocido."@,
        Some(t) => if is_image_mime(t) {
            match dims {
                None => exists|detail: Seq<char>|
                    #![trigger "Imagen inválida: "@ + detail]
                    r matches Err(AppError::Validation(m)) && m@ == "Imagen inválida: "@ + detail,
                Some((w, h)) => if w * h <= max_image_pixels {
                    r matches Ok((k, c)) && k == JobKind::Image && c@ == t
                } else {
                    r matches Err(AppError::Validation(m)) && m@ == pixel_limit_message(
                        (w * h) as nat,
                        max_image_pixels,
                    )
                },
            }
        } else if is_pdf_mime(t) {
            match spec_check_page_count(pages, max_pdf_pages) {
                Ok(_) => r matches Ok((k, c)) && k == JobKind::Pdf && c@ == t,
                Err(e) => r matches Err(AppError::Validation(m)) && m@ == "PDF inválido: "@
                    + page_count_message(e),
            }
        } else {
            r matches Err(AppError::Validation(m)) && m@ == "El formato "@ + t
                + " no está permitido."@
        },
    }
}

/// Detects the kind of an upload from its content: JPEG, PNG and WebP images within the pixel
/// limit, and PDFs within the page limit, are accepted; anything else is refused.
pub fn detect_upload_kind(bytes: &[u8], max_image_pixels: u64, max_pdf_pages: usize) -> (r: Result<
    (JobKind, String),
    AppError,
>)
    ensures
        upload_verdict(
            detected_mime(bytes@),
            probed_dimensions(bytes@),
            pdf_page_total(bytes@),
            max_image_pixels,
            max_pdf_pages,
            r,
        ),
        ({
            let t = detected_mime(bytes@)->Some_0;
            let (w, h) = probed_dimensions(bytes@)->Some_0;
            detected_mime(bytes@) is Some && (t == "image/jpeg"@ || t == "image/png"@ || t
                == "image/webp"@) && probed_dimensions(bytes@) is Some && w * h <= max_image_pixels
                ==> (r matches Ok((k, c)) && k == JobKind::Image && c@ == t)
        }),
        ({
            let t = detected_mime(bytes@)->Some_0;
            let n = pdf_page_total(bytes@)->Some_0;
            detected_mime(bytes@) is Some && t == "application/pdf"@ && pdf_page_total(bytes@)
                is Some && 1 <= n <= max_pdf_pages ==> (r matches Ok((k, c)) && k == JobKind::Pdf
                && c@ == t)
        }),
        r matches Ok((k, c)) ==> (k == JobKind::Image && (c@ == "image/jpeg"@ || c@ == "image/png"@
            || c@ == "image/webp"@)) || (k == JobKind::Pdf && c@ == "application/pdf"@),
{
    proof {
        reveal_strlit("application/pdf");
        reveal_strlit("image/jpeg");
        reveal_strlit("image/png");
        reveal_strlit("image/webp");
        assert("application/pdf"@.len() != "image/jpeg"@.len());
        assert("application/pdf"@.len() != "image/png"@.len());
        assert("application/pdf"@.len() != "image/webp"@.len());
    }
    let mime = match infer_mime(bytes) {
        None => {
            return Err(AppError::Validation(owned("Formato de archivo desconocido.")));
        },
        Some(m) => m,
    };
    if str_equal(mime.as_str(), "image/jpeg") || str_equal(mime.as_str(), "image/png")
        || str_equal(mime.as_str(), "image/webp") {
        match validate_image(bytes, max_image_pixels) {
            Ok(()) => Ok((JobKind::Image, mime)),
            Err(e) => Err(e),
        }
    } else if str_equal(mime.as_str(), "application/pdf") {
        match validate_pdf_page_count(bytes, max_pdf_pages) {
            Ok(_) => Ok((JobKind::Pdf, mime)),
            Err(e) => {
                let detail = e.message();
                Err(AppError::Validation(concat2("PDF inválido: ", detail.as_str())))
            },
        }
    } else {
        Err(AppError::Validation(concat3("El formato ", mime.as_str(), " no está permitido.")))
    }
}

/// The accepted image types are exactly JPEG, PNG and WebP: content detected as one of them
/// whose header fits the pixel limit is an image job of that type, and content of any other
/// type but PDF is refused as a format that is not allowed.
pub proof fn lemma_accepted_image_types(
    t: Seq<char>,
    w: u32,
    h: u32,
    pages: Option<usize>,
    max_image_pixels: u64,
    max_pdf_pages: usize,
    r: Result<(JobKind, String), AppError>,
)
    requires
        upload_verdict(Some(t), Some((w, h)), pages, max_image_pixels, max_pdf_pages, r),
    ensures
        (t == "image/jpeg"@ || t == "image/png"@ || t == "image/webp"@) && w * h
            <= max_image_pixels ==> (r matches Ok((k, c)) && k == JobKind::Image && c@ == t),
        t != "image/jpeg"@ && t != "image/png"@ && t != "image/webp"@ && t != "application/pdf"@
            ==> (r matches Err(AppError::Validation(m)) && m@ == "El formato "@ + t
            + " no está permitido."@),
        r matches Ok((k, c)) ==> (k == JobKind::Image && (t == "image/jpeg"@ || t == "image/png"@
            || t == "image/webp"@)) || (k == JobKind::Pdf && t == "application/pdf"@),
{
}

/// A PDF is held to between one and `max_pages` pages: every count in that range is accepted
/// as it is, a document without pages is refused as such and only then, a longer one is
/// refused with its count and the limit, and an unreadable one as unreadable.
pub proof fn lemma_page_count_verdict(n: usize, max_pages: usize)
    ensures
        1 <= n <= max_pages ==> spec_check_page_count(Some(n), max_pages) == Ok::<
            usize,
            PageCountError,
        >(n),
        (spec_check_page_count(Some(n), max_pages) == Err::<usize, PageCountError>(
            PageCountError::NoPages,
        )) <==> n == 0,
        n >= 1 && n > max_pages ==> spec_check_page_count(Some(n), max_pages) == Err::<
            usize,
            PageCountError,
        >(PageCountError::TooMany { pages: n, max_pages }),
        spec_check_page_count(None, max_pages) == Err::<usize, PageCountError>(
            PageCountError::Unreadable,
        ),
        spec_check_page_count(Some(n), max_pages) matches Ok(m) ==> m == n && 1 <= n <= max_pages,
{
}

/// An accepted upload.
#[derive(Debug)]
pub struct Upload {
    pub filename: String,
    pub content_type: String,
    pub kind: JobKind,
    pub sha256: String,
}

/// The detection outcome carried by the result of [`accept_upload`].
pub open spec fn upload_outcome(r: Result<Upload, AppError>) -> Result<(JobKind, String), AppError> {
    match r {
        Ok(u) => Ok((u.kind, u.content_type)),
        Err(e) => Err(e),
    }
}

/// Accepts the `file` field of an upload form: its name is sanitized (`archivo` when the
/// client sent none), its size checked, its type detected and its digest taken.
pub fn accept_upload(
    file_name: Option<&str>,
    bytes: &[u8],
    max_upload_bytes: usize,
    max_image_pixels: u64,
    max_pdf_pages: usize,
) -> (r: Result<Upload, AppError>)
    ensures
        bytes@.len() == 0 ==> (r matches Err(AppError::Validation(m)) && m@
            == "El archivo está vacío."@),
        0 < bytes@.len() && bytes@.len() > max_upload_bytes ==> (r matches Err(
            AppError::Validation(m),
        ) && m@ == upload_limit_message(max_upload_bytes)),
        r matches Ok(u) ==> {
            &&& 0 < bytes@.len() <= max_upload_bytes
            &&& u.filename@ == match file_name {
                Some(n) => sanitized_filename(n@),
                None => "archivo"@,
            }
            &&& u.sha256@ == bytes_hex_text(sha256_digest(bytes@))
            &&& u.sha256@.len() == 64
            &&& upload_verdict(
                detected_mime(bytes@),
                probed_dimensions(bytes@),
                pdf_page_total(bytes@),
                max_image_pixels,
                max_pdf_pages,
                Ok((u.kind, u.content_type)),
            )
        },
        0 < bytes@.len() <= max_upload_bytes && r is Err ==> upload_verdict(
            detected_mime(bytes@),
            probed_dimensions(bytes@),
            pdf_page_total(bytes@),
            max_image_pixels,
            max_pdf_pages,
            upload_outcome(r),
        ),
{
    let filename = match file_name {
        Some(n) => sanitize_filename(n),
        None => owned("archivo"),
    };
    match check_upload_size(bytes.len(), max_upload_bytes) {
        Err(e) => {
            return Err(e);
        },
        Ok(()) => {},
    }
    match detect_upload_kind(bytes, max_image_pixels, max_pdf_pages) {
        Err(e) => Err(e),
        Ok((kind, content_type)) => Ok(
            Upload { filename, content_type, kind, sha256: hex_sha256(bytes) },
        ),
    }
}

} // verus!
