//! Pictures redrawn by Different Dimension Me.
use vstd::prelude::*;

use crate::commands::{CommandError, CommandTrait};
use crate::images::{crop_picture, decode_picture, decoded_size, encode_png, image_decodes, png_of, ImageKind, Picture, PictureOrigin};
use crate::message_entities::{link, plain, text_str, views, with_url, Entity, EntityView};
use crate::text::{push_signed_decimal, push_str, signed_decimal, str_equal, string_from_chars};

verus! {

/// Redraws a picture in anime style with Different Dimension Me.
pub struct DifferentDimensionMe;

impl CommandTrait for DifferentDimensionMe {
    open spec fn spec_names(&self) -> Seq<Seq<char>> {
        seq!["different_dimension_me"@, "ai2d"@, "2d"@]
    }

    open spec fn spec_description(&self) -> Option<Seq<char>> {
        None
    }

    fn command_names(&self) -> (r: &[&str]) {
        let r: &[&str] = &["different_dimension_me", "ai2d", "2d"];
        assert(r@.map_values(|s: &str| s@) =~= self.spec_names());
        r
    }

    fn description(&self) -> (r: Option<&'static str>) {
        None
    }
}

/// A mebibyte, in bytes.
pub const MEBIBYTE: i64 = 1048576;

/// The largest picture that is sent, in bytes.
pub const MAX_IMAGE_SIZE: i64 = 4194304;

/// Whether the picture of the message (or the one it replies to) can be
/// sent: there must be one, of at most `MAX_IMAGE_SIZE` bytes.
pub fn check_image(size: Option<i64>) -> (r: Result<(), CommandError>)
    ensures
        match size {
            None => r matches Err(CommandError::Custom(m)) && m@ == "send or reply to an image."@,
            Some(s) => if s > MAX_IMAGE_SIZE {
                r matches Err(CommandError::Custom(m)) && m@
                    == "the image cannot be larger than 4 MiB."@
            } else {
                r is Ok
            },
        },
{
    match size {
        None => Err(CommandError::Custom(String::from_str("send or reply to an image."))),
        Some(s) => {
            if s > MAX_IMAGE_SIZE {
                Err(CommandError::Custom(String::from_str("the image cannot be larger than 4 MiB.")))
            } else {
                Ok(())
            }
        },
    }
}

/// The reply when the service refused the picture: a remark on censorship
/// for `IMG_ILLEGAL`, the error as the service describes it otherwise.
pub open spec fn spec_refusal_text(code: i64, message: Seq<char>, description: Seq<char>) -> Seq<char> {
    if message == "IMG_ILLEGAL"@ {
        "Xi Jinping does not approve of this image and has censored it (error "@ + signed_decimal(
            code as int,
        ) + ": "@ + message + ")"@
    } else {
        description
    }
}

/// The reply when the service refused the picture.
pub fn refusal_text(code: i64, message: &str, description: String) -> (r: String)
    ensures
        r@ == spec_refusal_text(code, message@, description@),
{
    if str_equal(message, "IMG_ILLEGAL") {
        let mut out: Vec<char> = Vec::new();
        push_str(&mut out, "Xi Jinping does not approve of this image and has censored it (error ");
        push_signed_decimal(&mut out, code);
        push_str(&mut out, ": ");
        push_str(&mut out, message);
        push_str(&mut out, ")");
        string_from_chars(out.as_slice())
    } else {
        description
    }
}

/// The first picture the service made, or the error when it made none.
pub fn first_image_url(urls: Vec<String>) -> (r: Result<String, CommandError>)
    ensures
        urls@.len() > 0 ==> r == Ok::<String, CommandError>(urls@[0]),
        urls@.len() == 0 ==> (r matches Err(CommandError::Custom(m)) && m@ == "the generation failed."@),
{
    let mut urls = urls;
    if urls.len() == 0 {
        Err(CommandError::Custom(String::from_str("the generation failed.")))
    } else {
        Ok(urls.swap_remove(0))
    }
}

/// A rectangle of a picture: left, top, width, height.
pub struct Region {
    pub x: u32,
    pub y: u32,
    pub width: u32,
    pub height: u32,
}

/// The part of the service's result that holds the redrawn picture, by the
/// result's size: the two layouts the service uses are cut down to the
/// picture, anything else is kept whole.
pub open spec fn spec_crop_region(width: u32, height: u32) -> Option<Region> {
    if width == 800 && height == 1257 {
        Some(Region { x: 20, y: 543, width: 758, height: 504 })
    } else if width == 1000 && height == 930 {
        Some(Region { x: 508, y: 24, width: 471, height: 705 })
    } else {
        None
    }
}

pub fn crop_region(width: u32, height: u32) -> (r: Option<Region>)
    ensures
        r == spec_crop_region(width, height),
{
    if width == 800 && height == 1257 {
        Some(Region { x: 20, y: 543, width: 758, height: 504 })
    } else if width == 1000 && height == 930 {
        Some(Region { x: 508, y: 24, width: 471, height: 705 })
    } else {
        None
    }
}

/// The picture cut to the region its size calls for, or left whole.
pub open spec fn cropped_origin(origin: PictureOrigin, width: u32, height: u32) -> PictureOrigin {
    match spec_crop_region(width, height) {
        Some(region) => PictureOrigin::Cropped {
            from: Box::new(origin),
            x: region.x,
            y: region.y,
            width: region.width,
            height: region.height,
        },
        None => origin,
    }
}

/// The redrawn picture cut out of the service's result.
pub fn crop_result_image(p: Picture) -> (r: Picture)
    ensures
        r@ == cropped_origin(p@, p.spec_width(), p.spec_height()),
        p.spec_width() == 800 && p.spec_height() == 1257 ==> r.spec_width() == 758 && r.spec_height() == 504,
        p.spec_width() == 1000 && p.spec_height() == 930 ==> r.spec_width() == 471 && r.spec_height() == 705,
        spec_crop_region(p.spec_width(), p.spec_height()) is None ==> r == p,
{
    let (width, height) = p.size();
    match crop_region(width, height) {
        Some(region) => crop_picture(p, region.x, region.y, region.width, region.height),
        None => p,
    }
}

pub open spec fn spec_caption(url: Seq<char>) -> Seq<EntityView> {
    seq![link(plain("open full image"@), url)]
}

/// The caption: a link to the full result.
pub fn caption_entities(url: String) -> (r: Vec<Entity>)
    ensures
        views(r@) == spec_caption(url@),
{
    let mut r: Vec<Entity> = Vec::new();
    r.push(with_url(text_str("open full image"), url));
    assert(views(r@) =~= spec_caption(url@));
    r
}


/// What the service's result (JPEG bytes) becomes: the decoded picture, cut
/// to the region its size calls for.
pub open spec fn redrawn_origin(result: Seq<u8>) -> PictureOrigin {
    cropped_origin(
        PictureOrigin::Decoded { bytes: result, webp: false },
        decoded_size(result, false).0,
        decoded_size(result, false).1,
    )
}

/// The service's result (a JPEG) with the redrawn picture cut out, as PNG;
/// the decoder's message when the result is not a JPEG, the encoder's when
/// encoding fails.
pub fn redrawn_png(result: &Vec<u8>) -> (r: Result<Vec<u8>, String>)
    ensures
        !image_decodes(result@, false) ==> r is Err,
        image_decodes(result@, false) ==> match png_of(redrawn_origin(result@)) {
            Some(b) => r matches Ok(v) && v@ == b,
            None => r is Err,
        },
{
    let picture = match decode_picture(result.as_slice(), ImageKind::Jpeg) {
        Ok(p) => p,
        Err(message) => return Err(message),
    };
    let cropped = crop_result_image(picture);
    encode_png(&cropped)
}

} // verus!
