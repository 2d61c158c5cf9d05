use vstd::prelude::*;

verus! {

/// One still frame of a display: row-major RGBA pixels, four bytes per
/// pixel. The invariant ties the buffer's length to the stated dimensions,
/// so a frame can never hold a partially decoded pixel buffer.
pub struct CapturedFrame {
    width: u32,
    height: u32,
    rgba: Vec<u8>,
}

impl CapturedFrame {
    /// Exactly four bytes of pixel data per pixel of the stated dimensions.
    #[verifier::type_invariant]
    pub closed spec fn wf(self) -> bool {
        self.rgba@.len() == 4 * self.width * self.height
    }

    /// The frame's width in pixels.
    pub closed spec fn spec_width(self) -> u32 {
        self.width
    }

    /// The frame's height in pixels.
    pub closed spec fn spec_height(self) -> u32 {
        self.height
    }

    /// The frame's raw RGBA bytes.
    pub closed spec fn spec_rgba(self) -> Seq<u8> {
        self.rgba@
    }

    /// Wraps a raw RGBA pixel buffer: succeeds exactly when the buffer holds
    /// four bytes per pixel of the stated dimensions, so no partial or
    /// oversized buffer is ever accepted as a frame.
    pub fn new(width: u32, height: u32, rgba: Vec<u8>) -> (r: Option<CapturedFrame>)
        ensures
            match r {
                Some(f) => {
                    &&& rgba@.len() == 4 * width * height
                    &&& f.spec_width() == width
                    &&& f.spec_height() == height
                    &&& f.spec_rgba() == rgba@
                },
                None => rgba@.len() != 4 * width * height,
            },
    {
        proof {
            assert(4 * (width as int) * (height as int) <= 4 * 0xffffffff * 0xffffffff)
                by (nonlinear_arith)
                requires
                    width <= 0xffffffffu32,
                    height <= 0xffffffffu32,
            ;
        }
        let expected: u128 = 4u128 * (width as u128) * (height as u128);
        if (rgba.len() as u128) == expected {
            Some(CapturedFrame { width, height, rgba })
        } else {
            None
        }
    }

    /// The width in pixels.
    pub fn width(&self) -> (r: u32)
        ensures
            r == self.spec_width(),
    {
        self.width
    }

    /// The height in pixels.
    pub fn height(&self) -> (r: u32)
        ensures
            r == self.spec_height(),
    {
        self.height
    }

    /// A view of the raw RGBA bytes.
    pub fn rgba_bytes(&self) -> (r: &Vec<u8>)
        ensures
            r@ == self.spec_rgba(),
    {
        &self.rgba
    }

}

#[verifier::external_type_specification]
#[verifier::external_body]
pub struct ExDynamicImage(image::DynamicImage);

/// The RGBA image value that wraps a pixel buffer of the given dimensions:
/// the conversion below is a pure function of its arguments.
pub uninterp spec fn image_of(width: u32, height: u32, rgba: Seq<u8>) -> image::DynamicImage;

/// Relies on image::RgbaImage::from_raw, which accepts a pixel container
/// whenever its length is at least width * height * 4 bytes — guaranteed
/// here, exactly, by the frame's invariant, so the unwrap cannot fail — and
/// on image::DynamicImage::ImageRgba8, which only tags the buffer as an
/// RGBA image. The result depends on the frame's dimensions and bytes alone.
#[verifier::external_body]
pub(crate) fn frame_into_image(frame: CapturedFrame) -> (r: image::DynamicImage)
    ensures
        r == image_of(frame.spec_width(), frame.spec_height(), frame.spec_rgba()),
{
    let CapturedFrame { width, height, rgba } = frame;
    let buffer = image::RgbaImage::from_raw(width, height, rgba).unwrap();
    image::DynamicImage::ImageRgba8(buffer)
}

} // verus!
