//! Covers: from an image taken out of a file to small copies of it.
//!
//! The images themselves are decoded, resized and encoded by the `image` and
//! `webp` crates. The library decides the sizes and what becomes of a copy.

use crate::database::service::view_all;
use crate::readmeta::{Cover, ImageView};
use image::DynamicImage;
use vstd::prelude::*;

verus! {

/// The quality at which copies are encoded, on a scale from 0 to 100.
pub const THUMB_QUALITY: i8 = 10;

/// The longest edge that a copy may have.
pub const MAX_EDGE: u32 = 16383;

/// The edge of the small copy.
pub const SMALL_EDGE: u32 = 140;

/// The edge of the medium copy.
pub const MEDIUM_EDGE: u32 = 600;

/// A decoded image of the `image` crate. The library carries it from one
/// call of that crate to the next and does not look inside.
#[verifier::external_type_specification]
#[verifier::external_body]
pub struct ExDynamicImage(DynamicImage);

/// The width and height of a decoded image, in pixels: what
/// `image::GenericImageView::dimensions` returns for it.
pub uninterp spec fn picture_size(img: DynamicImage) -> (nat, nat);

/// The shorter edge of a copy whose longer edge is `target`: scaled as the
/// longer one, rounded down, and at least one.
pub open spec fn scaled_edge(shorter: nat, longer: nat, target: nat) -> nat {
    if longer == 0 || target * shorter / longer < 1 {
        1
    } else {
        target * shorter / longer
    }
}

/// The width and height of a copy of an image of `width` by `height` whose
/// longer edge is to be `target`. A square becomes a square of that edge.
pub open spec fn target_size(width: nat, height: nat, target: nat) -> (nat, nat) {
    if width == height {
        (target, target)
    } else if width > height {
        (target, scaled_edge(height, width, target))
    } else {
        (scaled_edge(width, height, target), target)
    }
}

/// The label of a copy: `small` for the edge 140, `medium` for any other.
pub open spec fn label_of(target: nat) -> Seq<char> {
    if target == 140 {
        "small"@
    } else {
        "medium"@
    }
}

/// The copy of an image at the edge `target`, made of its encoded bytes and
/// its measured width and height.
pub open spec fn copy_of(target: nat, width: nat, height: nat, bytes: Seq<u8>) -> ImageView {
    ImageView {
        format: "webp"@,
        size: label_of(target),
        length: bytes.len(),
        width,
        height,
        bytes,
    }
}

/// The shorter edge of a copy. See [`scaled_edge`].
fn scale_edge(shorter: u32, longer: u32, target: u32) -> (r: u32)
    requires
        shorter <= longer,
    ensures
        r == scaled_edge(shorter as nat, longer as nat, target as nat),
        1 <= r,
        target >= 1 ==> r <= target,
{
    if longer == 0 {
        return 1;
    }
    assert((target as u64) * (shorter as u64) <= 0xFFFF_FFFFu64 * 0xFFFF_FFFFu64)
        by (nonlinear_arith);
    let product: u64 = (target as u64) * (shorter as u64);
    let scaled: u64 = product / (longer as u64);
    assert(scaled <= target) by (nonlinear_arith)
        requires
            scaled as int == (target as int * shorter as int) / (longer as int),
            shorter <= longer,
            longer > 0,
    ;
    if scaled < 1 {
        1
    } else {
        scaled as u32
    }
}

/// The width and height of a copy whose longer edge is `target`.
pub fn target_dimensions(width: u32, height: u32, target: u32) -> (r: (u32, u32))
    ensures
        (r.0 as nat, r.1 as nat) == target_size(width as nat, height as nat, target as nat),
        target >= 1 ==> 1 <= r.0 <= target && 1 <= r.1 <= target,
{
    if width == height {
        (target, target)
    } else if width > height {
        (target, scale_edge(height, width, target))
    } else {
        (scale_edge(width, height, target), target)
    }
}

/// The label of a copy at the edge `target`.
pub fn size_label(target: u32) -> (r: String)
    ensures
        r@ == label_of(target as nat),
{
    if target == 140 {
        "small".to_owned()
    } else {
        "medium".to_owned()
    }
}

/// An image format of the `image` crate. The library carries it from the
/// guess to the decoding and does not look inside.
#[verifier::external_type_specification]
#[verifier::external_body]
pub struct ExImageFormat(image::ImageFormat);

/// The format that the first bytes tell, if they tell one: what
/// `image::guess_format` returns for them, without its error.
pub uninterp spec fn guessed_format(bytes: Seq<u8>) -> Option<image::ImageFormat>;

/// The image that bytes decode to in a format, if they decode: what
/// `image::load_from_memory_with_format` returns for them, without its
/// error.
pub uninterp spec fn decoded_as(bytes: Seq<u8>, format: image::ImageFormat) -> Option<
    DynamicImage,
>;

/// The image that bytes decode to, if they decode: they are decoded in the
/// format that their first bytes tell.
pub open spec fn decoded_image(bytes: Seq<u8>) -> Option<DynamicImage> {
    match guessed_format(bytes) {
        Some(format) => decoded_as(bytes, format),
        None => None,
    }
}

/// The format that the first bytes tell. Wraps `image::guess_format`, which
/// holds them against the signatures that the crate knows. What it returns
/// depends on the bytes alone.
#[verifier::external_body]
fn guess_format(bytes: &Vec<u8>) -> (r: Option<image::ImageFormat>)
    ensures
        r == guessed_format(bytes@),
{
    image::guess_format(bytes.as_slice()).ok()
}

/// Decodes an image of that format from its bytes. Wraps
/// `image::load_from_memory_with_format`, which runs the decoder that the
/// crate has for the format and gives an error where it has none or the
/// bytes are no such image. What it returns depends on the bytes and the
/// format alone.
#[verifier::external_body]
fn decode_as(bytes: &Vec<u8>, format: image::ImageFormat) -> (r: Option<DynamicImage>)
    ensures
        r == decoded_as(bytes@, format),
{
    image::load_from_memory_with_format(bytes.as_slice(), format).ok()
}

/// Decodes an image from its bytes, in the format that their first bytes
/// tell.
pub fn decode_image(bytes: &Vec<u8>) -> (r: Option<DynamicImage>)
    ensures
        r == decoded_image(bytes@),
{
    match guess_format(bytes) {
        Some(format) => decode_as(bytes, format),
        None => None,
    }
}

/// The width and height of a decoded image. Wraps
/// `image::GenericImageView::dimensions`.
#[verifier::external_body]
fn image_size(img: &DynamicImage) -> (r: (u32, u32))
    ensures
        (r.0 as nat, r.1 as nat) == picture_size(*img),
{
    image::GenericImageView::dimensions(img)
}

/// Tells whether the buffers that resizing needs fit the memory that a
/// machine can address: one of `width` by `height` pixels, of sixteen bytes
/// each at most.
pub open spec fn fits_memory(width: nat, height: nat) -> bool {
    width * height * 16 <= isize::MAX
}

/// The image scaled with the nearest-neighbour filter to fit `nwidth` by
/// `nheight`: what `image::DynamicImage::resize` returns for it with
/// `FilterType::Nearest`.
pub uninterp spec fn resized_image(img: DynamicImage, nwidth: nat, nheight: nat) -> DynamicImage;

/// A copy of the image, scaled with the nearest-neighbour filter to the
/// largest size of its proportions that fits `nwidth` by `nheight`, and to
/// one pixel at least. Wraps `image::DynamicImage::resize`, which allocates
/// a buffer of the old width by the new height and one of the new size, and
/// panics where the length of one overflows. A square image that is not
/// empty comes out at exactly a square bound. What it returns depends on the
/// image and the two bounds alone.
#[verifier::external_body]
fn resize_nearest(img: &DynamicImage, nwidth: u32, nheight: u32) -> (r: DynamicImage)
    requires
        1 <= nwidth,
        1 <= nheight,
        fits_memory(picture_size(*img).0, nheight as nat),
        fits_memory(nwidth as nat, nheight as nat),
    ensures
        r == resized_image(*img, nwidth as nat, nheight as nat),
        1 <= picture_size(r).0 <= nwidth,
        1 <= picture_size(r).1 <= nheight,
        is_square(picture_size(*img)) && nwidth == nheight ==> picture_size(r) == (
            nwidth as nat,
            nheight as nat,
        ),
{
    img.resize(nwidth, nheight, image::imageops::FilterType::Nearest)
}

/// Tells whether a size is that of a square that is not empty.
pub open spec fn is_square(size: (nat, nat)) -> bool {
    size.0 == size.1 && size.0 > 0
}

/// Tells whether an image of that size can be resized to the edge `target`:
/// the edge is one pixel at least, and the buffers of the resizing fit the
/// memory.
pub open spec fn can_resize(size: (nat, nat), target: nat) -> bool {
    1 <= target && fits_memory(size.0, target) && fits_memory(target, target)
}

/// A smaller buffer fits where a larger one does.
proof fn lemma_fits_less(width: nat, height: nat, less_width: nat, less_height: nat)
    requires
        fits_memory(width, height),
        less_width <= width,
        less_height <= height,
    ensures
        fits_memory(less_width, less_height),
{
    assert(less_width * less_height * 16 <= width * height * 16) by (nonlinear_arith)
        requires
            less_width <= width,
            less_height <= height,
    ;
}

/// Tells whether an image of that size can be resized to the edge `target`.
pub fn check_resize(width: u32, height: u32, target: u32) -> (r: bool)
    ensures
        r == can_resize((width as nat, height as nat), target as nat),
{
    if target < 1 {
        return false;
    }
    let limit: u128 = isize::MAX as u128;
    assert(width * target <= 0xFFFF_FFFF * 0xFFFF_FFFF && target * target <= 0xFFFF_FFFF
        * 0xFFFF_FFFF) by (nonlinear_arith)
        requires
            width <= 0xFFFF_FFFF,
            target <= 0xFFFF_FFFF,
    ;
    let buffer: u128 = (width as u128) * (target as u128) * 16;
    let copy: u128 = (target as u128) * (target as u128) * 16;
    buffer <= limit && copy <= limit
}

/// The image resized to the edge `target`: scaled with the nearest-neighbour
/// filter to fit the width and height that [`target_size`] gives for it.
pub open spec fn resized_to(img: DynamicImage, target: nat) -> DynamicImage {
    resized_image(
        img,
        target_size(picture_size(img).0, picture_size(img).1, target).0,
        target_size(picture_size(img).0, picture_size(img).1, target).1,
    )
}

/// A copy of the image whose longer edge is at most `target_size`, scaled
/// with the nearest-neighbour filter; its proportions are kept. A square
/// becomes a square of that edge.
pub fn resize_image(img: Box<DynamicImage>, target_size: u32) -> (r: Box<DynamicImage>)
    requires
        can_resize(picture_size(*img), target_size as nat),
    ensures
        *r == resized_to(*img, target_size as nat),
        is_square(picture_size(*img)) ==> picture_size(*r) == (
            target_size as nat,
            target_size as nat,
        ),
        1 <= picture_size(*r).0 <= self::target_size(
            picture_size(*img).0,
            picture_size(*img).1,
            target_size as nat,
        ).0,
        1 <= picture_size(*r).1 <= self::target_size(
            picture_size(*img).0,
            picture_size(*img).1,
            target_size as nat,
        ).1,
        picture_size(*r).0 <= target_size,
        picture_size(*r).1 <= target_size,
{
    let (width, height) = image_size(&img);
    let (nwidth, nheight) = target_dimensions(width, height, target_size);
    proof {
        lemma_fits_less(width as nat, target_size as nat, width as nat, nheight as nat);
        lemma_fits_less(target_size as nat, target_size as nat, nwidth as nat, nheight as nat);
    }
    Box::new(resize_nearest(&img, nwidth, nheight))
}

/// The image resized to the edge `target_size`, where it can be resized in
/// the memory of the machine; nothing where it cannot.
pub fn try_resize_image(img: Box<DynamicImage>, target_size: u32) -> (r: Option<Box<DynamicImage>>)
    ensures
        match r {
            Some(resized) => {
                &&& can_resize(picture_size(*img), target_size as nat)
                &&& *resized == resized_to(*img, target_size as nat)
                &&& 1 <= picture_size(*resized).0 <= target_size
                &&& 1 <= picture_size(*resized).1 <= target_size
                &&& is_square(picture_size(*img)) ==> picture_size(*resized) == (
                    target_size as nat,
                    target_size as nat,
                )
            },
            None => !can_resize(picture_size(*img), target_size as nat),
        },
{
    let (width, height) = image_size(&img);
    if check_resize(width, height, target_size) {
        Some(resize_image(img, target_size))
    } else {
        None
    }
}

/// What encoding an image as lossy WebP at a quality gives: the bytes, or the
/// words of the error. It is what `webp::Encoder::encode_simple` returns for
/// the encoder that `webp::Encoder::from_image` makes of the image.
pub uninterp spec fn webp_of(img: DynamicImage, quality: int) -> Result<Seq<u8>, Seq<char>>;

/// The bytes or the words of an error, as sequences.
pub open spec fn encoded_view(r: Result<Vec<u8>, String>) -> Result<Seq<u8>, Seq<char>> {
    match r {
        Ok(bytes) => Ok(bytes@),
        Err(words) => Err(words@),
    }
}

/// The bytes of the image as lossy WebP at that quality. Wraps
/// `webp::Encoder::encode_simple` on the encoder that
/// `webp::Encoder::from_image` makes of the image. The first takes images of
/// three or four bytes a pixel only; the second gives an error for a quality
/// off the scale from 0 to 100 and for an image that WebP cannot hold. On
/// its way it multiplies the width by the bytes of a pixel in 32 bits, which
/// overflows for an image far wider than WebP holds; such an image is left
/// out. What comes out depends on the image and the quality alone.
#[verifier::external_body]
fn encode_webp(img: &DynamicImage, quality: i8) -> (r: Result<Vec<u8>, String>)
    requires
        picture_size(*img).0 <= MAX_EDGE,
        picture_size(*img).1 <= MAX_EDGE,
    ensures
        encoded_view(r) == webp_of(*img, quality as int),
{
    match webp::Encoder::from_image(img) {
        Err(err) => Err(err.to_string()),
        Ok(encoder) => match encoder.encode_simple(false, quality.into()) {
            Ok(memory) => Ok(memory.to_vec()),
            Err(err) => Err(format!("{:?}", err)),
        },
    }
}

/// What encoding an image gives: for an image with an edge above
/// [`MAX_EDGE`], which WebP cannot hold, the error of a bad dimension; for
/// any other, what the encoder gives.
pub open spec fn compressed(img: DynamicImage, quality: int) -> Result<Seq<u8>, Seq<char>> {
    if picture_size(img).0 <= MAX_EDGE && picture_size(img).1 <= MAX_EDGE {
        webp_of(img, quality)
    } else {
        Err("VP8_ENC_ERROR_BAD_DIMENSION"@)
    }
}

/// Encodes an image as lossy WebP at the quality `qulity`, from 0 to 100.
/// The error says what the encoder refused. An image with an edge above
/// [`MAX_EDGE`] is refused before the encoder sees it.
pub fn compress_img(img: &DynamicImage, qulity: i8) -> (r: Result<Vec<u8>, String>)
    ensures
        encoded_view(r) == compressed(*img, qulity as int),
{
    let (width, height) = image_size(img);
    if width > MAX_EDGE || height > MAX_EDGE {
        return Err("VP8_ENC_ERROR_BAD_DIMENSION".to_owned());
    }
    encode_webp(img, qulity)
}

/// The copy of an image at the edge `target`, made of its encoded bytes and
/// its measured width and height.
pub fn make_copy(target: u32, width: u32, height: u32, bytes: Vec<u8>) -> (r: Cover)
    ensures
        r@ == copy_of(target as nat, width as nat, height as nat, bytes@),
{
    Cover {
        format: "webp".to_owned(),
        size: size_label(target),
        length: bytes.len(),
        width,
        height,
        base64: bytes,
    }
}

/// Tells whether an image is a copy at the edge `target`: a WebP image under
/// the label of that edge, whose length is that of its bytes and that fits a
/// square of that edge.
pub open spec fn is_copy(copy: ImageView, target: nat) -> bool {
    &&& copy == copy_of(target, copy.width, copy.height, copy.bytes)
    &&& 1 <= copy.width <= target
    &&& 1 <= copy.height <= target
}

/// The copy of a cover at the edge `target`, encoded at a quality, where
/// there is one: the bytes of the cover are decoded, the image is resized to
/// the edge and encoded as WebP, and the copy is made of the encoded bytes
/// and of the width and height of the resized image. There is none for an
/// edge of zero or above [`MAX_EDGE`], for bytes that are no image, for an
/// image that cannot be resized in the memory of the machine, and for one
/// that the encoder refuses.
pub open spec fn cover_copy(bytes: Seq<u8>, target: nat, quality: int) -> Option<ImageView> {
    if target < 1 || target > MAX_EDGE {
        None
    } else {
        match decoded_image(bytes) {
            None => None,
            Some(img) => if !can_resize(picture_size(img), target) {
                None
            } else {
                match webp_of(resized_to(img, target), quality) {
                    Ok(encoded) => Some(
                        copy_of(
                            target,
                            picture_size(resized_to(img, target)).0,
                            picture_size(resized_to(img, target)).1,
                            encoded,
                        ),
                    ),
                    Err(_) => None,
                }
            },
        }
    }
}

/// The copy, as a sequence of one, or the empty sequence where there is none.
pub open spec fn one_or_none(copy: Option<ImageView>) -> Seq<ImageView> {
    match copy {
        Some(copy) => seq![copy],
        None => Seq::empty(),
    }
}

/// The copies that are kept of a cover: the small one, then the medium one,
/// each where it can be made, at the quality [`THUMB_QUALITY`].
pub open spec fn derived_covers(bytes: Seq<u8>) -> Seq<ImageView> {
    one_or_none(cover_copy(bytes, SMALL_EDGE as nat, THUMB_QUALITY as int)) + one_or_none(
        cover_copy(bytes, MEDIUM_EDGE as nat, THUMB_QUALITY as int),
    )
}

/// A copy of a cover at the edge `size`, encoded at the quality `qulity`.
/// There is none for an edge of zero or above [`MAX_EDGE`], nor where the
/// bytes are no image that can be decoded, resized in the memory of the
/// machine, and encoded.
pub fn resize_cover(cover: &Cover, size: u32, qulity: i8) -> (r: Option<Cover>)
    ensures
        match r {
            Some(copy) => cover_copy(cover@.bytes, size as nat, qulity as int) == Some(copy@),
            None => cover_copy(cover@.bytes, size as nat, qulity as int) is None,
        },
        r is Some ==> 1 <= size <= MAX_EDGE && is_copy(r->0@, size as nat),
        size < 1 || size > MAX_EDGE ==> r is None,
{
    if size < 1 || size > MAX_EDGE {
        return None;
    }
    let img = match decode_image(&cover.base64) {
        Some(img) => img,
        None => {
            return None;
        },
    };
    let (width, height) = image_size(&img);
    if !check_resize(width, height, size) {
        return None;
    }
    let resized = resize_image(Box::new(img), size);
    let (new_width, new_height) = image_size(&resized);
    match compress_img(&resized, qulity) {
        Ok(bytes) => Some(make_copy(size, new_width, new_height, bytes)),
        Err(_) => None,
    }
}

/// The copies that are kept of a cover: the small and the medium one, each
/// where it can be made, in that order.
pub fn derive_covers(cover: &Cover) -> (r: Vec<Cover>)
    ensures
        view_all(r@) == derived_covers(cover@.bytes),
        r@.len() <= 2,
        r@.len() == 1 ==> is_copy(r@[0]@, SMALL_EDGE as nat) || is_copy(r@[0]@, MEDIUM_EDGE as nat),
        r@.len() == 2 ==> is_copy(r@[0]@, SMALL_EDGE as nat) && is_copy(r@[1]@, MEDIUM_EDGE as nat),
{
    let mut out: Vec<Cover> = Vec::new();
    assert(view_all(out@) == Seq::<ImageView>::empty());
    if let Some(small) = resize_cover(cover, SMALL_EDGE, THUMB_QUALITY) {
        out.push(small);
        assert(view_all(out@) == seq![small@]);
    }
    let ghost first = view_all(out@);
    if let Some(medium) = resize_cover(cover, MEDIUM_EDGE, THUMB_QUALITY) {
        out.push(medium);
        assert(view_all(out@) == first + seq![medium@]);
    } else {
        assert(view_all(out@) == first + Seq::<ImageView>::empty());
    }
    out
}

} // verus!
