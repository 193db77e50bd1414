//! The artifacts a job produces: their names, types and recorded dimensions, the page limit
//! applied when a PDF is rendered, and the `metadata.json` document.
use vstd::prelude::*;

use vstd::utf8::encode_utf8;

use crate::errors::ProcessingError;
use crate::format::{dec_text, hex_text, push_decimal, push_hex};
use crate::text::{chars_of, owned, push_char};

verus! {

/// One artifact produced by processing a job.
#[derive(Debug)]
pub struct Artifact {
    pub name: String,
    pub content_type: String,
    pub bytes: Vec<u8>,
    pub width: Option<i32>,
    pub height: Option<i32>,
    pub page_number: Option<i32>,
}

/// A dimension as stored: `None` when it does not fit in 32 signed bits.
pub open spec fn stored_dimension(v: nat) -> Option<i32> {
    if v <= i32::MAX {
        Some(v as i32)
    } else {
        None
    }
}

fn to_stored(v: u64) -> (r: Option<i32>)
    ensures
        r == stored_dimension(v as nat),
{
    if v <= i32::MAX as u64 {
        Some(v as i32)
    } else {
        None
    }
}

/// A WebP rendition of an image, recorded with its dimensions.
pub fn image_artifact(name: &str, bytes: Vec<u8>, width: u32, height: u32) -> (a: Artifact)
    ensures
        a.name@ == name@,
        a.content_type@ == "image/webp"@,
        a.bytes == bytes,
        a.width == stored_dimension(width as nat),
        a.height == stored_dimension(height as nat),
        a.page_number is None,
{
    Artifact {
        name: owned(name),
        content_type: owned("image/webp"),
        bytes,
        width: to_stored(width as u64),
        height: to_stored(height as u64),
        page_number: None,
    }
}

/// The name of the preview of page `index` (counted from zero): `page-<index + 1>.png`.
pub open spec fn page_artifact_name(index: nat) -> Seq<char> {
    "page-"@ + dec_text(index + 1) + ".png"@
}

/// The PNG preview of page `index` (counted from zero) of a PDF.
pub fn page_artifact(index: usize, png: Vec<u8>, width: u32, height: u32) -> (a: Artifact)
    requires
        index < usize::MAX,
    ensures
        a.name@ == page_artifact_name(index as nat),
        a.content_type@ == "image/png"@,
        a.bytes == png,
        a.width == stored_dimension(width as nat),
        a.height == stored_dimension(height as nat),
        a.page_number == stored_dimension(index as nat + 1),
{
    let mut name = owned("page-");
    push_decimal(&mut name, (index + 1) as u64);
    name.append(".png");
    Artifact {
        name,
        content_type: owned("image/png"),
        bytes: png,
        width: to_stored(width as u64),
        height: to_stored(height as u64),
        page_number: to_stored((index + 1) as u64),
    }
}

/// The `metadata.json` artifact holding `json`.
pub fn metadata_artifact(json: &str) -> (a: Artifact)
    ensures
        a.name@ == "metadata.json"@,
        a.content_type@ == "application/json"@,
        a.bytes@ == encode_utf8(json@),
        a.width is None,
        a.height is None,
        a.page_number is None,
{
    Artifact {
        name: owned("metadata.json"),
        content_type: owned("application/json"),
        bytes: json.as_bytes_vec(),
        width: None,
        height: None,
        page_number: None,
    }
}

/// The number of pages of a PDF that get a preview.
pub fn preview_page_count(page_count: usize, preview_pages: usize) -> (n: usize)
    ensures
        n == if page_count < preview_pages {
            page_count
        } else {
            preview_pages
        },
{
    if page_count < preview_pages {
        page_count
    } else {
        preview_pages
    }
}

pub open spec fn too_many_pages_message(page_count: nat, max_pages: nat) -> Seq<char> {
    "El PDF tiene "@ + dec_text(page_count) + " páginas; el máximo es "@ + dec_text(max_pages)
        + "."@
}

/// Holds a PDF about to be rendered to the page limit.
pub fn check_rendered_page_count(page_count: usize, max_pages: usize) -> (r: Result<
    (),
    ProcessingError,
>)
    ensures
        page_count <= max_pages ==> r is Ok,
        page_count > max_pages ==> (r matches Err(ProcessingError::Invalid(m)) && m@
            == too_many_pages_message(page_count as nat, max_pages as nat)),
{
    if page_count > max_pages {
        let mut m = owned("El PDF tiene ");
        push_decimal(&mut m, page_count as u64);
        m.append(" páginas; el máximo es ");
        push_decimal(&mut m, max_pages as u64);
        m.append(".");
        return Err(ProcessingError::Invalid(m));
    }
    Ok(())
}

// ---------------------------------------------------------------------------
// metadata.json
// ---------------------------------------------------------------------------

/// One character inside a JSON string, escaped as `serde_json` writes it.
pub open spec fn json_escape_char(c: char) -> Seq<char> {
    if c == '"' {
        seq!['\\', '"']
    } else if c == '\\' {
        seq!['\\', '\\']
    } else if c == '\u{8}' {
        seq!['\\', 'b']
    } else if c == '\t' {
        seq!['\\', 't']
    } else if c == '\n' {
        seq!['\\', 'n']
    } else if c == '\u{c}' {
        seq!['\\', 'f']
    } else if c == '\r' {
        seq!['\\', 'r']
    } else if (c as u32) < 0x20 {
        seq!['\\', 'u', '0', '0'] + hex_text((c as u32) as nat, 2)
    } else {
        seq![c]
    }
}

pub open spec fn json_escape(s: Seq<char>) -> Seq<char>
    decreases s.len(),
{
    if s.len() == 0 {
        Seq::empty()
    } else {
        json_escape(s.drop_last()) + json_escape_char(s.last())
    }
}

/// A JSON string literal holding `s`.
pub open spec fn json_string(s: Seq<char>) -> Seq<char> {
    seq!['"'] + json_escape(s) + seq!['"']
}

fn push_json_string(out: &mut String, s: &str)
    ensures
        final(out)@ == old(out)@ + json_string(s@),
{
    let v = chars_of(s);
    push_char(out, '"');
    let mut i: usize = 0;
    while i < v.len()
        invariant
            i <= v@.len(),
            v@ == s@,
            out@ == old(out)@ + seq!['"'] + json_escape(v@.take(i as int)),
        decreases v@.len() - i,
    {
        let c = v[i];
        let ghost before = out@;
        if c == '"' {
            push_char(out, '\\');
            push_char(out, '"');
        } else if c == '\\' {
            push_char(out, '\\');
            push_char(out, '\\');
        } else if c == '\u{8}' {
            push_char(out, '\\');
            push_char(out, 'b');
        } else if c == '\t' {
            push_char(out, '\\');
            push_char(out, 't');
        } else if c == '\n' {
            push_char(out, '\\');
            push_char(out, 'n');
        } else if c == '\u{c}' {
            push_char(out, '\\');
            push_char(out, 'f');
        } else if c == '\r' {
            push_char(out, '\\');
            push_char(out, 'r');
        } else if (c as u32) < 0x20 {
            push_char(out, '\\');
            push_char(out, 'u');
            push_char(out, '0');
            push_char(out, '0');
            push_hex(out, c as u32 as u128, 2);
        } else {
            push_char(out, c);
        }
        proof {
            assert(out@ =~= before + json_escape_char(c));
            assert(v@.take(i + 1).drop_last() =~= v@.take(i as int));
            assert(v@.take(i + 1).last() == c);
        }
        i = i + 1;
    }
    push_char(out, '"');
    assert(v@.take(v@.len() as int) =~= v@);
}

/// The `metadata.json` of an image job, laid out as `serde_json`'s pretty printer writes it
/// (keys in order, two-space indentation).
pub open spec fn image_metadata_text(
    sha256: Seq<char>,
    width: nat,
    height: nat,
    thumbnail_width: nat,
    thumbnail_height: nat,
    preview_width: nat,
    preview_height: nat,
) -> Seq<char> {
    "{\n  \"height\": "@ + dec_text(height) + ",\n  \"kind\": \"image\",\n  \"preview\": {\n    \"height\": "@
        + dec_text(preview_height) + ",\n    \"width\": "@ + dec_text(preview_width)
        + "\n  },\n  \"sha256\": "@ + json_string(sha256) + ",\n  \"thumbnail\": {\n    \"height\": "@
        + dec_text(thumbnail_height) + ",\n    \"width\": "@ + dec_text(thumbnail_width)
        + "\n  },\n  \"width\": "@ + dec_text(width) + "\n}"@
}

/// The `metadata.json` of an image job: the digest and dimensions of the uploaded image, the
/// thumbnail and the preview.
pub fn image_metadata_json(
    sha256: &str,
    width: u32,
    height: u32,
    thumbnail_width: u32,
    thumbnail_height: u32,
    preview_width: u32,
    preview_height: u32,
) -> (j: String)
    ensures
        j@ == image_metadata_text(
            sha256@,
            width as nat,
            height as nat,
            thumbnail_width as nat,
            thumbnail_height as nat,
            preview_width as nat,
            preview_height as nat,
        ),
{
    let mut j = owned("{\n  \"height\": ");
    push_decimal(&mut j, height as u64);
    j.append(",\n  \"kind\": \"image\",\n  \"preview\": {\n    \"height\": ");
    push_decimal(&mut j, preview_height as u64);
    j.append(",\n    \"width\": ");
    push_decimal(&mut j, preview_width as u64);
    j.append("\n  },\n  \"sha256\": ");
    push_json_string(&mut j, sha256);
    j.append(",\n  \"thumbnail\": {\n    \"height\": ");
    push_decimal(&mut j, thumbnail_height as u64);
    j.append(",\n    \"width\": ");
    push_decimal(&mut j, thumbnail_width as u64);
    j.append("\n  },\n  \"width\": ");
    push_decimal(&mut j, width as u64);
    j.append("\n}");
    j
}

/// The `metadata.json` of a PDF job.
pub open spec fn pdf_metadata_text(sha256: Seq<char>, page_count: nat, preview_pages: nat) -> Seq<
    char,
> {
    "{\n  \"kind\": \"pdf\",\n  \"page_count\": "@ + dec_text(page_count) + ",\n  \"preview_pages\": "@
        + dec_text(if page_count < preview_pages {
        page_count
    } else {
        preview_pages
    }) + ",\n  \"sha256\": "@ + json_string(sha256) + "\n}"@
}

/// The `metadata.json` of a PDF job: the digest, the page count and how many pages got a
/// preview.
pub fn pdf_metadata_json(sha256: &str, page_count: usize, preview_pages: usize) -> (j: String)
    ensures
        j@ == pdf_metadata_text(sha256@, page_count as nat, preview_pages as nat),
{
    let mut j = owned("{\n  \"kind\": \"pdf\",\n  \"page_count\": ");
    push_decimal(&mut j, page_count as u64);
    j.append(",\n  \"preview_pages\": ");
    push_decimal(&mut j, preview_page_count(page_count, preview_pages) as u64);
    j.append(",\n  \"sha256\": ");
    push_json_string(&mut j, sha256);
    j.append("\n}");
    j
}

} // verus!
