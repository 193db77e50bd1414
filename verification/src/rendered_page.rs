//! A page that PDFium rendered, together with the request it was rendered for. Only
//! [`render_page`] makes one, so the request a page carries is the one handed to PDFium.
use vstd::prelude::*;

verus! {

/// `image::DynamicImage`, a decoded image held by the `image` crate.
#[verifier::external_type_specification]
#[verifier::external_body]
pub struct ExDynamicImage(image::DynamicImage);

/// The bitmap of one page and the request `(page index, target width, largest height)` it was
/// rendered for.
pub struct RenderedPage {
    image: image::DynamicImage,
    request: (i32, i32, i32),
}

impl RenderedPage {
    /// The request this page was rendered for.
    pub closed spec fn requested(self) -> (i32, i32, i32) {
        self.request
    }

    /// The request this page was rendered for.
    pub fn request(&self) -> (r: (i32, i32, i32))
        ensures
            r == self.requested(),
    {
        self.request
    }

    /// The rendered bitmap.
    pub fn image(&self) -> &image::DynamicImage {
        &self.image
    }
}

/// `PdfPages::get` for the page `request.0`, then `PdfPage::render_with_config` with the target
/// width `request.1` and the largest height `request.2`, and `as_image`. What PDFium renders
/// depends on the library that was loaded, so nothing is stated of the bitmap; the page that
/// comes back records the request it was rendered for.
#[verifier::external_body]
pub(crate) fn render_page(
    document: &pdfium_render::prelude::PdfDocument,
    request: (i32, i32, i32),
) -> (r: Result<RenderedPage, String>)
    ensures
        r matches Ok(page) ==> page.requested() == request,
{
    let config = pdfium_render::prelude::PdfRenderConfig::new().set_target_width(
        request.1,
    ).set_maximum_height(request.2);
    match document.pages().get(request.0) {
        Ok(page) => match page.render_with_config(&config) {
            Ok(bitmap) => match bitmap.as_image() {
                Ok(image) => Ok(RenderedPage { image, request }),
                Err(error) => Err(error.to_string()),
            },
            Err(error) => Err(error.to_string()),
        },
        Err(error) => Err(error.to_string()),
    }
}

} // verus!
