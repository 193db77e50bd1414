//! Processing an image job: the upload is decoded to learn its size, and a WebP thumbnail, a
//! WebP preview and the `metadata.json` document are produced from it.
use vstd::prelude::*;

use vstd::utf8::encode_utf8;

use crate::artifacts::{
    image_artifact, image_metadata_json, image_metadata_text, metadata_artifact,
    stored_dimension, Artifact,
};
use crate::errors::ProcessingError;
use crate::text::concat2;

verus! {

/// The width and height of `data` once the `image` crate has decoded it in full, if it can.
pub uninterp spec fn decoded_size(data: Seq<u8>) -> Option<(u32, u32)>;

/// `image::load_from_memory`, then `dimensions` of the decoded image. The text of the error is
/// not stated.
#[verifier::external_body]
fn load_image(data: &[u8]) -> (r: Result<(u32, u32), String>)
    ensures
        match r {
            Ok((w, h)) => decoded_size(data@) == Some((w, h)),
            Err(_) => decoded_size(data@) is None,
        },
{
    match image::load_from_memory(data) {
        Ok(decoded) => {
            Ok(image::GenericImageView::dimensions(&decoded))
        },
        Err(error) => Err(error.to_string()),
    }
}

/// The WebP rendition of `data` within `max_width` by `max_height`, with its width and height,
/// as the `image` crate makes it: decoded, scaled down keeping its aspect ratio, and encoded;
/// `None` when the bytes do not decode or the encoder fails.
pub uninterp spec fn webp_encoded(data: Seq<u8>, max_width: u32, max_height: u32) -> Option<
    (Seq<u8>, u32, u32),
>;

/// `image::load_from_memory`, then `DynamicImage::thumbnail`, `write_to` in WebP and
/// `dimensions` of the thumbnail. The outcome is named by [`webp_encoded`]; as the crate
/// documents, the thumbnail fits within `max_width` by `max_height`. The text of an error is
/// not stated.
#[verifier::external_body]
fn webp_thumbnail(data: &[u8], max_width: u32, max_height: u32) -> (r: Result<
    (Vec<u8>, u32, u32),
    String,
>)
    ensures
        match r {
            Ok((bytes, w, h)) => {
                &&& webp_encoded(data@, max_width, max_height) == Some((bytes@, w, h))
                &&& (max_width >= 1 && max_height >= 1 ==> w <= max_width && h <= max_height)
            },
            Err(_) => webp_encoded(data@, max_width, max_height) is None,
        },
{
    let small = match image::load_from_memory(data) {
        Ok(decoded) => decoded.thumbnail(max_width, max_height),
        Err(error) => return Err(error.to_string()),
    };
    let mut encoded = std::io::Cursor::new(Vec::new());
    match small.write_to(&mut encoded, image::ImageFormat::WebP) {
        Ok(()) => {
            let (w, h) = image::GenericImageView::dimensions(&small);
            Ok((encoded.into_inner(), w, h))
        },
        Err(error) => Err(error.to_string()),
    }
}

/// The largest side of a thumbnail.
pub const THUMBNAIL_SIZE: u32 = 320;

/// The largest side of a preview.
pub const PREVIEW_SIZE: u32 = 1280;

/// The three artifacts of an image job whose upload is `width` by `height`, for the given
/// sizes of the thumbnail and the preview.
pub open spec fn image_artifacts_with(
    a: Seq<Artifact>,
    sha256: Seq<char>,
    width: u32,
    height: u32,
    sizes: (u32, u32, u32, u32),
) -> bool {
    let (tw, th, pw, ph) = sizes;
    &&& a.len() == 3
    &&& tw <= THUMBNAIL_SIZE && th <= THUMBNAIL_SIZE
    &&& pw <= PREVIEW_SIZE && ph <= PREVIEW_SIZE
    &&& a[0].name@ == "thumbnail.webp"@
    &&& a[0].content_type@ == "image/webp"@
    &&& a[0].width == stored_dimension(tw as nat)
    &&& a[0].height == stored_dimension(th as nat)
    &&& a[0].page_number is None
    &&& a[1].name@ == "preview.webp"@
    &&& a[1].content_type@ == "image/webp"@
    &&& a[1].width == stored_dimension(pw as nat)
    &&& a[1].height == stored_dimension(ph as nat)
    &&& a[1].page_number is None
    &&& a[2].name@ == "metadata.json"@
    &&& a[2].content_type@ == "application/json"@
    &&& a[2].bytes@ == encode_utf8(
        image_metadata_text(
            sha256,
            width as nat,
            height as nat,
            tw as nat,
            th as nat,
            pw as nat,
            ph as nat,
        ),
    )
    &&& a[2].width is None && a[2].height is None && a[2].page_number is None
}

/// The artifacts of an image job: a WebP thumbnail within 320 pixels, a WebP preview within
/// 1280 pixels, and the metadata document that records their sizes and the upload's.
pub open spec fn image_artifacts(a: Seq<Artifact>, sha256: Seq<char>, width: u32, height: u32) -> bool {
    exists|sizes: (u32, u32, u32, u32)|
        #![trigger image_artifacts_with(a, sha256, width, height, sizes)]
        image_artifacts_with(a, sha256, width, height, sizes)
}

/// Processes an uploaded image: an image that cannot be decoded is invalid input; otherwise the
/// thumbnail, the preview and `metadata.json` are produced from the two WebP renditions, and a
/// failure to encode them is temporary.
pub fn process_image(bytes: &[u8], sha256: &str) -> (r: Result<Vec<Artifact>, ProcessingError>)
    ensures
        match decoded_size(bytes@) {
            None => exists|detail: Seq<char>|
                #![trigger "Imagen inválida: "@ + detail]
                r matches Err(ProcessingError::Invalid(m)) && m@ == "Imagen inválida: "@ + detail,
            Some((w, h)) => {
                let t = webp_encoded(bytes@, THUMBNAIL_SIZE, THUMBNAIL_SIZE);
                let p = webp_encoded(bytes@, PREVIEW_SIZE, PREVIEW_SIZE);
                &&& (r is Ok <==> (t is Some && p is Some))
                &&& (r matches Ok(a) ==> {
                    let (tb, tw, th) = t->Some_0;
                    let (pb, pw, ph) = p->Some_0;
                    &&& image_artifacts_with(a@, sha256@, w, h, (tw, th, pw, ph))
                    &&& a@[0].bytes@ == tb
                    &&& a@[1].bytes@ == pb
                })
                &&& (r matches Err(e) ==> e is Temporary)
            },
        },
{
    let (width, height) = match load_image(bytes) {
        Ok(size) => size,
        Err(error) => {
            let m = concat2("Imagen inválida: ", error.as_str());
            assert(m@ == "Imagen inválida: "@ + error@);
            return Err(ProcessingError::Invalid(m));
        },
    };
    let (thumbnail, tw, th) = match webp_thumbnail(bytes, THUMBNAIL_SIZE, THUMBNAIL_SIZE) {
        Ok(t) => t,
        Err(error) => {
            return Err(ProcessingError::Temporary(error));
        },
    };
    let (preview, pw, ph) = match webp_thumbnail(bytes, PREVIEW_SIZE, PREVIEW_SIZE) {
        Ok(p) => p,
        Err(error) => {
            return Err(ProcessingError::Temporary(error));
        },
    };
    Ok(image_artifacts_from(sha256, width, height, (thumbnail, tw, th), (preview, pw, ph)))
}

/// The artifacts of an image job whose upload, with digest `sha256`, is `width` by `height`:
/// the WebP `thumbnail` and `preview`, each with its width and height, then `metadata.json`.
pub fn image_artifacts_from(
    sha256: &str,
    width: u32,
    height: u32,
    thumbnail: (Vec<u8>, u32, u32),
    preview: (Vec<u8>, u32, u32),
) -> (a: Vec<Artifact>)
    requires
        thumbnail.1 <= THUMBNAIL_SIZE && thumbnail.2 <= THUMBNAIL_SIZE,
        preview.1 <= PREVIEW_SIZE && preview.2 <= PREVIEW_SIZE,
    ensures
        image_artifacts_with(a@, sha256@, width, height, (thumbnail.1, thumbnail.2, preview.1, preview.2)),
        a@[0].bytes@ == thumbnail.0@,
        a@[1].bytes@ == preview.0@,
{
    let (thumbnail_bytes, tw, th) = thumbnail;
    let (preview_bytes, pw, ph) = preview;
    let metadata = image_metadata_json(sha256, width, height, tw, th, pw, ph);
    let mut artifacts: Vec<Artifact> = Vec::new();
    artifacts.push(image_artifact("thumbnail.webp", thumbnail_bytes, tw, th));
    artifacts.push(image_artifact("preview.webp", preview_bytes, pw, ph));
    artifacts.push(metadata_artifact(metadata.as_str()));
    proof {
        reveal_strlit("thumbnail.webp");
        reveal_strlit("preview.webp");
        assert(image_artifacts_with(artifacts@, sha256@, width, height, (tw, th, pw, ph)));
    }
    artifacts
}

/// Processing the same image again produces artifacts under the same names, so a repeated
/// attempt overwrites its outputs rather than adding to them.
pub proof fn lemma_image_artifact_names_are_fixed(
    a: Seq<Artifact>,
    b: Seq<Artifact>,
    sha256: Seq<char>,
    width: u32,
    height: u32,
)
    requires
        image_artifacts(a, sha256, width, height),
        image_artifacts(b, sha256, width, height),
    ensures
        a.len() == b.len(),
        forall|i: int| 0 <= i < a.len() ==> (#[trigger] a[i]).name@ == b[i].name@,
{
    let sa = choose|s: (u32, u32, u32, u32)| image_artifacts_with(a, sha256, width, height, s);
    let sb = choose|s: (u32, u32, u32, u32)| image_artifacts_with(b, sha256, width, height, s);
    assert(image_artifacts_with(a, sha256, width, height, sa));
    assert(image_artifacts_with(b, sha256, width, height, sb));
}

} // verus!
