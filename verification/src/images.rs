//! Decoded pictures, worked on with the `image` crate.
use std::io::Cursor;

use image::imageops::FilterType;
use image::{DynamicImage, GenericImageView, ImageFormat};
use vstd::prelude::*;

verus! {

#[verifier::external_type_specification]
#[verifier::external_body]
pub struct ExDynamicImage(DynamicImage);

/// How a picture came to be: decoded from bytes, then cut and scaled. The
/// pixels of a picture are a function of its origin alone.
pub enum PictureOrigin {
    /// Decoded from these bytes, as WebP or (when `webp` is false) as JPEG.
    Decoded { bytes: Seq<u8>, webp: bool },
    /// The rectangle at (x, y) of this size, cut out of another picture.
    Cropped { from: Box<PictureOrigin>, x: u32, y: u32, width: u32, height: u32 },
    /// Another picture scaled to exactly this size.
    Resized { from: Box<PictureOrigin>, width: u32, height: u32 },
}

/// Whether these bytes decode as a picture of that kind.
pub uninterp spec fn image_decodes(bytes: Seq<u8>, webp: bool) -> bool;

/// The width and height of the picture these bytes decode to.
pub uninterp spec fn decoded_size(bytes: Seq<u8>, webp: bool) -> (u32, u32);

/// The PNG encoding of the picture with this origin; `None` when the
/// encoder fails.
pub uninterp spec fn png_of(origin: PictureOrigin) -> Option<Seq<u8>>;

/// A decoded picture with its size and its origin. Pictures are only made by
/// decoding, cropping and resizing below, which keep the stored size equal to
/// the image's own.
pub struct Picture {
    image: DynamicImage,
    width: u32,
    height: u32,
    origin: Ghost<PictureOrigin>,
}

impl View for Picture {
    type V = PictureOrigin;

    closed spec fn view(&self) -> PictureOrigin {
        self.origin@
    }
}

impl Picture {
    pub closed spec fn spec_image(&self) -> DynamicImage {
        self.image
    }

    pub closed spec fn spec_width(&self) -> u32 {
        self.width
    }

    pub closed spec fn spec_height(&self) -> u32 {
        self.height
    }

    /// The picture's size.
    pub fn size(&self) -> (r: (u32, u32))
        ensures
            r == (self.spec_width(), self.spec_height()),
    {
        (self.width, self.height)
    }

    /// The image itself.
    pub fn into_image(self) -> (r: DynamicImage)
        ensures
            r == self.spec_image(),
    {
        self.image
    }
}

/// Calls `DynamicImage::crop_imm`, which cuts out the rectangle clipped to
/// the picture (`crop_dimms` in the `image` crate): the left and top edges
/// are kept inside it and the width and height shortened to fit. The
/// picture's stored size is the image's own, so the result's size follows
/// from it; the result is the cut at (x, y) of the given size.
#[verifier::external_body]
pub(crate) fn crop_picture(p: Picture, x: u32, y: u32, width: u32, height: u32) -> (r: Picture)
    ensures
        r@ == (PictureOrigin::Cropped { from: Box::new(p@), x, y, width, height }),
        r.spec_width() == vstd::math::min(width as int, p.spec_width() - vstd::math::min(x as int, p.spec_width() as int)),
        r.spec_height() == vstd::math::min(height as int, p.spec_height() - vstd::math::min(y as int, p.spec_height() as int)),
{
    let image = p.image.crop_imm(x, y, width, height);
    let (w, h) = image.dimensions();
    Picture { image, width: w, height: h, origin: Ghost(PictureOrigin::Cropped { from: Box::new(p.origin@), x, y, width, height }) }
}

/// The encodings that pictures arrive in.
#[derive(Clone, Copy)]
pub enum ImageKind {
    Jpeg,
    WebP,
}

/// Calls `image::load_from_memory_with_format`: a picture exactly when the
/// bytes decode as that kind, with the decoded size; on failure the
/// decoder's message (nothing is stated of its text).
#[verifier::external_body]
fn decode(bytes: &[u8], kind: ImageKind) -> (r: Result<Picture, String>)
    ensures
        r is Ok <==> image_decodes(bytes@, kind is WebP),
        r matches Ok(p) ==> p@ == (PictureOrigin::Decoded { bytes: bytes@, webp: kind is WebP })
            && (p.spec_width(), p.spec_height()) == decoded_size(bytes@, kind is WebP),
{
    let format = match kind {
        ImageKind::Jpeg => ImageFormat::Jpeg,
        ImageKind::WebP => ImageFormat::WebP,
    };
    match image::load_from_memory_with_format(bytes, format) {
        Ok(image) => {
            let (width, height) = image.dimensions();
            Ok(Picture { image, width, height, origin: Ghost(PictureOrigin::Decoded { bytes: bytes@, webp: kind is WebP }) })
        },
        Err(err) => Err(err.to_string()),
    }
}

/// Decodes a picture; the decoder's message when the bytes are not a
/// picture of that kind.
pub fn decode_picture(bytes: &[u8], kind: ImageKind) -> (r: Result<Picture, String>)
    ensures
        r is Ok <==> image_decodes(bytes@, kind is WebP),
        r matches Ok(p) ==> p@ == (PictureOrigin::Decoded { bytes: bytes@, webp: kind is WebP })
            && (p.spec_width(), p.spec_height()) == decoded_size(bytes@, kind is WebP),
{
    decode(bytes, kind)
}

/// Calls `DynamicImage::resize_exact` with the Lanczos filter, which makes a
/// picture of exactly the given size (`imageops::resize` fills a new buffer
/// of that size).
#[verifier::external_body]
pub(crate) fn resize_picture(p: Picture, width: u32, height: u32) -> (r: Picture)
    ensures
        r@ == (PictureOrigin::Resized { from: Box::new(p@), width, height }),
        r.spec_width() == width,
        r.spec_height() == height,
{
    let image = p.image.resize_exact(width, height, FilterType::Lanczos3);
    let (w, h) = image.dimensions();
    Picture { image, width: w, height: h, origin: Ghost(PictureOrigin::Resized { from: Box::new(p.origin@), width, height }) }
}

/// Calls `DynamicImage::write_to` with the PNG encoder into a buffer: the
/// encoding of the picture, or the encoder's message (nothing is stated of
/// its text) when it fails.
#[verifier::external_body]
pub(crate) fn encode_png(p: &Picture) -> (r: Result<Vec<u8>, String>)
    ensures
        match png_of(p@) {
            Some(b) => r matches Ok(v) && v@ == b,
            None => r is Err,
        },
{
    let mut buffer = Cursor::new(Vec::new());
    match p.image.write_to(&mut buffer, ImageFormat::Png) {
        Ok(()) => Ok(buffer.into_inner()),
        Err(err) => Err(err.to_string()),
    }
}

/// A decoded picture, scaled to `size` when one is given.
pub open spec fn sized(origin: PictureOrigin, size: Option<(u32, u32)>) -> PictureOrigin {
    match size {
        Some((w, h)) => PictureOrigin::Resized { from: Box::new(origin), width: w, height: h },
        None => origin,
    }
}

/// The pictures made of these inputs: those that decode, in order, each
/// scaled to `size` when one is given.
pub open spec fn decoded_origins(images: Seq<Seq<u8>>, webp: bool, size: Option<(u32, u32)>) -> Seq<PictureOrigin>
    decreases images.len(),
{
    if images.len() == 0 {
        Seq::empty()
    } else {
        let rest = decoded_origins(images.drop_last(), webp, size);
        if image_decodes(images.last(), webp) {
            rest.push(sized(PictureOrigin::Decoded { bytes: images.last(), webp }, size))
        } else {
            rest
        }
    }
}

/// The bytes of each input.
pub open spec fn byte_seqs(images: Seq<Vec<u8>>) -> Seq<Seq<u8>> {
    images.map_values(|v: Vec<u8>| v@)
}

/// The origins of pictures.
pub open spec fn origins(pictures: Seq<Picture>) -> Seq<PictureOrigin> {
    pictures.map_values(|p: Picture| p@)
}

/// Decodes the pictures that decode, in order, the others left out, each
/// resized to `size` when one is given.
pub fn decoded_pictures(images: &Vec<Vec<u8>>, kind: ImageKind, size: Option<(u32, u32)>) -> (r: Vec<Picture>)
    ensures
        origins(r@) == decoded_origins(byte_seqs(images@), kind is WebP, size),
        size matches Some((w, h)) ==> forall|i: int|
            0 <= i < r@.len() ==> (#[trigger] r@[i]).spec_width() == w && r@[i].spec_height() == h,
{
    let mut r: Vec<Picture> = Vec::new();
    let mut i: usize = 0;
    while i < images.len()
        invariant
            i <= images.len(),
            origins(r@) == decoded_origins(byte_seqs(images@).take(i as int), kind is WebP, size),
            size matches Some((w, h)) ==> forall|j: int|
                0 <= j < r@.len() ==> (#[trigger] r@[j]).spec_width() == w && r@[j].spec_height() == h,
        decreases images.len() - i,
    {
        let ghost before = r@;
        assert(byte_seqs(images@).take(i + 1).drop_last() =~= byte_seqs(images@).take(i as int));
        assert(byte_seqs(images@).take(i + 1).last() == images@[i as int]@);
        match decode_picture(images[i].as_slice(), kind) {
            Ok(p) => {
                match size {
                    Some((w, h)) => r.push(resize_picture(p, w, h)),
                    None => r.push(p),
                }
                assert(origins(r@) =~= origins(before).push(r@.last()@));
            },
            Err(_) => {},
        }
        i = i + 1;
    }
    assert(byte_seqs(images@).take(i as int) =~= byte_seqs(images@));
    r
}

} // verus!
