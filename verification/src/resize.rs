//! Checking, decoding and scaling a fetched image.
//!
//! The serving program fetches the image and hands over what came back: the
//! status, the declared content type and the body. Decoding and scaling are
//! the work of the `image` crate, which is reached through two small
//! functions. Nothing is claimed of what decoding gives: the same file may
//! decode to slightly different pixels on different processors. Of scaling
//! it is taken on trust that the crate returns under the conditions stated,
//! with as many pixels as were asked for. What is decided around the two is
//! verified.

use vstd::prelude::*;
use vstd::string::StringExecFns;
use crate::reply::{HttpReply, HttpReplyView, ReplyBody, ReplyBodyView};
use crate::text::{
    decimal, decimal_text, is_visible, lemma_plain_bytes_are_quoted_as_they_are, quoted,
    quoted_text,
};

verus! {

/// A decoded picture: its size in pixels and its pixels row by row, three
/// bytes each for red, green and blue.
#[derive(Clone, Debug, PartialEq, Eq)]
pub struct Raster {
    pub width: u32,
    pub height: u32,
    pub pixels: Vec<u8>,
}

/// The mathematical content of a [`Raster`].
pub struct RasterView {
    pub width: u32,
    pub height: u32,
    pub pixels: Seq<u8>,
}

impl View for Raster {
    type V = RasterView;

    open spec fn view(&self) -> RasterView {
        RasterView { width: self.width, height: self.height, pixels: self.pixels@ }
    }
}

impl DeepView for Raster {
    type V = RasterView;

    open spec fn deep_view(&self) -> RasterView {
        self@
    }
}

/// Why no picture is sent.
#[derive(Clone, Debug, PartialEq, Eq)]
pub enum ImageError {
    /// The request for the image got no response.
    Unreachable,
    /// The response had a status other than 200.
    Status(u16),
    /// The response declared a content type that is not JPEG.
    ContentType(Vec<u8>),
    /// The body of the response could not be read.
    Unreadable,
    /// The body is no picture that can be decoded, or an empty one.
    Undecodable,
    /// The picture or the size asked for is too large to scale.
    TooLarge,
}

/// The mathematical content of an [`ImageError`].
pub enum ImageErrorView {
    Unreachable,
    Status(u16),
    ContentType(Seq<u8>),
    Unreadable,
    Undecodable,
    TooLarge,
}

impl View for ImageError {
    type V = ImageErrorView;

    open spec fn view(&self) -> ImageErrorView {
        match self {
            ImageError::Unreachable => ImageErrorView::Unreachable,
            ImageError::Status(status) => ImageErrorView::Status(*status),
            ImageError::ContentType(declared) => ImageErrorView::ContentType(declared@),
            ImageError::Unreadable => ImageErrorView::Unreadable,
            ImageError::Undecodable => ImageErrorView::Undecodable,
            ImageError::TooLarge => ImageErrorView::TooLarge,
        }
    }
}

/// What came of fetching the image.
#[derive(Clone, Debug, PartialEq, Eq)]
pub enum ImageFetch {
    /// The request got no response.
    Unreachable,
    /// A response came: its status, the bytes of its `Content-Type` header
    /// if it had one, and its body unless reading it failed.
    Response { status: u16, content_type: Option<Vec<u8>>, body: Option<Vec<u8>> },
}

/// The mathematical content of an [`ImageFetch`].
pub enum ImageFetchView {
    Unreachable,
    Response { status: u16, content_type: Option<Seq<u8>>, body: Option<Seq<u8>> },
}

impl View for ImageFetch {
    type V = ImageFetchView;

    open spec fn view(&self) -> ImageFetchView {
        match self {
            ImageFetch::Unreachable => ImageFetchView::Unreachable,
            ImageFetch::Response { status, content_type, body } => ImageFetchView::Response {
                status: *status,
                content_type: bytes_view(*content_type),
                body: bytes_view(*body),
            },
        }
    }
}

/// The mathematical content of bytes that may be missing.
pub open spec fn bytes_view(bytes: Option<Vec<u8>>) -> Option<Seq<u8>> {
    match bytes {
        Some(bytes) => Some(bytes@),
        None => None,
    }
}

/// The bytes are the characters of the text, one byte each.
pub open spec fn spells(bytes: Seq<u8>, text: Seq<char>) -> bool {
    &&& bytes.len() == text.len()
    &&& forall|i: int| 0 <= i < bytes.len() ==> bytes[i] as int == text[i] as int
}

/// The content type is one of the two spellings of JPEG, letter for
/// letter.
pub open spec fn is_jpeg(declared: Seq<u8>) -> bool {
    spells(declared, "image/jpeg"@) || spells(declared, "image/jpg"@)
}

/// What the status and the declared content type of a response say before
/// its body is looked at: a status other than 200 is refused, and so is a
/// declared content type that is not JPEG. A response that declares no
/// content type passes.
pub open spec fn response_check(status: u16, content_type: Option<Seq<u8>>) -> Result<
    (),
    ImageErrorView,
> {
    if status != 200 {
        Err(ImageErrorView::Status(status))
    } else {
        match content_type {
            Some(declared) => if is_jpeg(declared) {
                Ok(())
            } else {
                Err(ImageErrorView::ContentType(declared))
            },
            None => Ok(()),
        }
    }
}

/// The pixels that the `image` crate gives when it scales an 8-bit RGB
/// picture with the nearest-neighbour filter to exactly `nwidth` by
/// `nheight` pixels.
pub uninterp spec fn resized_rgb8(
    width: u32,
    height: u32,
    pixels: Seq<u8>,
    nwidth: u32,
    nheight: u32,
) -> Seq<u8>;

/// The picture has pixels, and as many bytes as its size asks for.
pub open spec fn is_picture(raster: RasterView) -> bool {
    &&& raster.width > 0
    &&& raster.height > 0
    &&& 3 * (raster.width * raster.height) <= raster.pixels.len()
}

/// Scaling the picture to the size stays within what can be allocated. The
/// target, of three bytes a pixel, is no larger than `isize::MAX` bytes;
/// and unless the picture has the size already, neither is the intermediate
/// picture of sixteen bytes a pixel, as wide as the source and as high as
/// the target. A size without pixels allocates nothing.
pub open spec fn is_scalable(raster: RasterView, nwidth: u32, nheight: u32) -> bool {
    ||| nwidth == 0
    ||| nheight == 0
    ||| {
        &&& 3 * (nwidth * nheight) <= isize::MAX
        &&& (nwidth == raster.width && nheight == raster.height) || 16 * (raster.width * nheight)
            <= isize::MAX
    }
}

/// The picture that is scaled, or why none is: what was decoded has to be
/// a picture, and scalable to the size.
pub open spec fn scalable_picture(decoded: Option<RasterView>, nwidth: u32, nheight: u32) -> Result<
    RasterView,
    ImageErrorView,
> {
    match decoded {
        None => Err(ImageErrorView::Undecodable),
        Some(raster) => if !is_picture(raster) {
            Err(ImageErrorView::Undecodable)
        } else if !is_scalable(raster, nwidth, nheight) {
            Err(ImageErrorView::TooLarge)
        } else {
            Ok(raster)
        },
    }
}

/// The pixels of a picture scaled to a size: none where the size has no
/// pixels, and otherwise what the `image` crate gives.
pub open spec fn scaled_pixels(raster: RasterView, nwidth: u32, nheight: u32) -> Seq<u8> {
    if nwidth == 0 || nheight == 0 {
        Seq::empty()
    } else {
        resized_rgb8(raster.width, raster.height, raster.pixels, nwidth, nheight)
    }
}

/// The scaled pixels of what was decoded, or why there are none.
pub open spec fn scaled(decoded: Option<RasterView>, nwidth: u32, nheight: u32) -> Result<
    Seq<u8>,
    ImageErrorView,
> {
    match scalable_picture(decoded, nwidth, nheight) {
        Ok(raster) => Ok(scaled_pixels(raster, nwidth, nheight)),
        Err(error) => Err(error),
    }
}

/// What stands in the way of a fetch before anything is decoded: no
/// response, a response that is refused for its status or its declared
/// content type, or a body that could not be read, in this order. None
/// where the body of an accepted response is at hand.
pub open spec fn refusal(fetch: ImageFetchView) -> Option<ImageErrorView> {
    match fetch {
        ImageFetchView::Unreachable => Some(ImageErrorView::Unreachable),
        ImageFetchView::Response { status, content_type, body } => match response_check(
            status,
            content_type,
        ) {
            Err(error) => Some(error),
            Ok(_) => match body {
                None => Some(ImageErrorView::Unreadable),
                Some(_) => None,
            },
        },
    }
}

/// The reply carries the raw pixels of a picture of the given size: status
/// 200, three bytes a pixel and nothing else.
pub open spec fn sends_picture(reply: HttpReplyView, width: u32, height: u32) -> bool {
    &&& reply.status == 200
    &&& !reply.json
    &&& reply.body matches ReplyBodyView::Bytes(pixels)
    &&& pixels.len() == 3 * (width * height)
}

/// The body of the reply that reports an error.
pub open spec fn error_body(error: ImageErrorView) -> ReplyBodyView {
    match error {
        ImageErrorView::Unreachable => ReplyBodyView::Text("could not get response for image"@),
        ImageErrorView::Status(status) => ReplyBodyView::Text(
            "status code to get image is "@ + decimal_text(status as nat),
        ),
        ImageErrorView::ContentType(declared) => ReplyBodyView::Text(
            "response was type: "@ + quoted_text(declared),
        ),
        ImageErrorView::Unreadable => ReplyBodyView::Empty,
        ImageErrorView::Undecodable => ReplyBodyView::Text("could not decode image"@),
        ImageErrorView::TooLarge => ReplyBodyView::Text("could not resize image"@),
    }
}

/// The reply to a request for a scaled image: the raw pixels with status
/// 200, or the error with status 500. Neither declares a content type.
pub open spec fn image_reply_for(outcome: Result<Seq<u8>, ImageErrorView>) -> HttpReplyView {
    match outcome {
        Ok(pixels) => HttpReplyView { status: 200, json: false, body: ReplyBodyView::Bytes(pixels) },
        Err(error) => HttpReplyView { status: 500, json: false, body: error_body(error) },
    }
}

/// The mathematical content of the outcome of scaling.
pub open spec fn outcome_view(outcome: Result<Vec<u8>, ImageError>) -> Result<
    Seq<u8>,
    ImageErrorView,
> {
    match outcome {
        Ok(pixels) => Ok(pixels@),
        Err(error) => Err(error@),
    }
}

/// The mathematical content of a picture that may have been refused.
pub open spec fn picture_view(picture: Result<Raster, ImageError>) -> Result<
    RasterView,
    ImageErrorView,
> {
    match picture {
        Ok(raster) => Ok(raster@),
        Err(error) => Err(error@),
    }
}

/// The mathematical content of the verdict on a response.
pub open spec fn check_view(verdict: Result<(), ImageError>) -> Result<(), ImageErrorView> {
    match verdict {
        Ok(_) => Ok(()),
        Err(error) => Err(error@),
    }
}

/// A response that declares a content type other than JPEG is refused for
/// that, whatever its body holds and whether or not the body could be read:
/// the refusal stands before anything is decoded, and the reply quotes the
/// declared type.
pub proof fn lemma_wrong_type_is_refused_undecoded(declared: Seq<u8>, body: Option<Seq<u8>>)
    requires
        !is_jpeg(declared),
    ensures
        refusal(ImageFetchView::Response { status: 200, content_type: Some(declared), body })
            == Some(ImageErrorView::ContentType(declared)),
        image_reply_for(Err(ImageErrorView::ContentType(declared))) == (HttpReplyView {
            status: 500,
            json: false,
            body: ReplyBodyView::Text("response was type: "@ + quoted_text(declared)),
        }),
{
}

/// A refused content type that is made of visible bytes without quotation
/// marks stands in the reply as it was declared, between quotation marks.
pub proof fn lemma_refused_type_is_named(declared: Seq<u8>)
    requires
        forall|i: int|
            0 <= i < declared.len() ==> is_visible(#[trigger] declared[i]) && declared[i] != 34,
    ensures
        error_body(ImageErrorView::ContentType(declared)) == ReplyBodyView::Text(
            "response was type: "@ + (seq!['"'] + Seq::new(
                declared.len(),
                |i: int| declared[i] as char,
            ) + seq!['"']),
        ),
{
    lemma_plain_bytes_are_quoted_as_they_are(declared);
}

/// Decoding with the `image` crate: `io::Reader::new` over the bytes,
/// `with_guessed_format`, `decode`, and `DynamicImage::into_rgb8`; then the
/// width and height that the picture reports and its buffer as it is. An
/// error of the crate at any point gives none. Nothing is claimed of the
/// picture: for some formats the crate chooses its arithmetic by the
/// processor it runs on.
#[verifier::external_body]
fn decode_rgb8(bytes: &Vec<u8>) -> (decoded: Option<Raster>) {
    let reader = image::io::Reader::new(std::io::Cursor::new(bytes.as_slice()));
    let picture = reader.with_guessed_format().ok()?.decode().ok()?.into_rgb8();
    Some(Raster { width: picture.width(), height: picture.height(), pixels: picture.into_raw() })
}

/// Scaling with the `image` crate: `DynamicImage::resize_exact` with
/// `FilterType::Nearest` on the picture, then `to_rgb8` and `into_raw`.
/// The result is the buffer that the crate gives for this picture and this
/// size, which it allocates with three bytes for each pixel of the size.
/// The picture has to have pixels and a buffer that holds them, the size
/// has to have pixels, and both have to stay within what can be allocated,
/// or the crate would panic.
#[verifier::external_body]
fn resize_nearest(raster: &Raster, nwidth: u32, nheight: u32) -> (pixels: Vec<u8>)
    requires
        is_picture(raster@),
        nwidth > 0,
        nheight > 0,
        is_scalable(raster@, nwidth, nheight),
    ensures
        pixels@ == resized_rgb8(raster.width, raster.height, raster.pixels@, nwidth, nheight),
        pixels@.len() == 3 * (nwidth * nheight),
{
    let buffer = image::RgbImage::from_raw(raster.width, raster.height, raster.pixels.clone());
    let picture = image::DynamicImage::ImageRgb8(buffer.unwrap());
    picture.resize_exact(nwidth, nheight, image::imageops::FilterType::Nearest).to_rgb8().into_raw()
}

fn spells_text(bytes: &Vec<u8>, text: &str) -> (same: bool)
    ensures
        same == spells(bytes@, text@),
{
    if bytes.len() != text.unicode_len() {
        return false;
    }
    let mut i: usize = 0;
    while i < bytes.len()
        invariant
            i <= bytes.len(),
            bytes.len() == text@.len(),
            forall|k: int| 0 <= k < i ==> bytes[k] as int == text@[k] as int,
        decreases bytes.len() - i,
    {
        if bytes[i] as u32 != text.get_char(i) as u32 {
            return false;
        }
        i = i + 1;
    }
    true
}

/// Tells whether a declared content type is JPEG.
pub fn declares_jpeg(declared: &Vec<u8>) -> (jpeg: bool)
    ensures
        jpeg == is_jpeg(declared@),
{
    spells_text(declared, "image/jpeg") || spells_text(declared, "image/jpg")
}

/// Judges a response by its status and its declared content type, before
/// its body is looked at.
pub fn check_image_response(status: u16, content_type: &Option<Vec<u8>>) -> (verdict: Result<
    (),
    ImageError,
>)
    ensures
        check_view(verdict) == response_check(status, bytes_view(*content_type)),
{
    if status != 200 {
        return Err(ImageError::Status(status));
    }
    match content_type {
        Some(declared) => {
            if declares_jpeg(declared) {
                Ok(())
            } else {
                Err(ImageError::ContentType(declared.clone()))
            }
        },
        None => Ok(()),
    }
}

fn area(width: u128, height: u128) -> (pixels: u128)
    requires
        width <= u32::MAX,
        height <= u32::MAX,
    ensures
        pixels == width * height,
        pixels <= 0xFFFF_FFFE_0000_0001,
{
    assert(width * height <= 0xFFFF_FFFF * 0xFFFF_FFFF) by (nonlinear_arith)
        requires
            width <= 0xFFFF_FFFF,
            height <= 0xFFFF_FFFF,
    ;
    width * height
}

/// Looks at what was decoded and at the size asked for, and hands the
/// picture on if it can be scaled to it.
pub fn scalable(decoded: Option<Raster>, nwidth: u32, nheight: u32) -> (picture: Result<
    Raster,
    ImageError,
>)
    ensures
        picture_view(picture) == scalable_picture(decoded.deep_view(), nwidth, nheight),
{
    let raster = match decoded {
        Some(raster) => raster,
        None => {
            return Err(ImageError::Undecodable);
        },
    };
    let needed: u128 = 3 * area(raster.width as u128, raster.height as u128);
    if raster.width == 0 || raster.height == 0 || needed > raster.pixels.len() as u128 {
        return Err(ImageError::Undecodable);
    }
    if nwidth == 0 || nheight == 0 {
        return Ok(raster);
    }
    let limit: u128 = isize::MAX as u128;
    let same: bool = nwidth == raster.width && nheight == raster.height;
    if 3 * area(nwidth as u128, nheight as u128) > limit {
        return Err(ImageError::TooLarge);
    }
    if !same && 16 * area(raster.width as u128, nheight as u128) > limit {
        return Err(ImageError::TooLarge);
    }
    Ok(raster)
}

/// Scales what was decoded to exactly `nwidth` by `nheight` pixels with the
/// nearest-neighbour filter, or says why it cannot be scaled. The pixels
/// come raw, row by row, three bytes each.
pub fn resize_decoded(decoded: Option<Raster>, nwidth: u32, nheight: u32) -> (outcome: Result<
    Vec<u8>,
    ImageError,
>)
    ensures
        outcome_view(outcome) == scaled(decoded.deep_view(), nwidth, nheight),
        outcome matches Ok(pixels) ==> pixels@.len() == 3 * (nwidth * nheight),
{
    match scalable(decoded, nwidth, nheight) {
        Ok(raster) => {
            if nwidth == 0 || nheight == 0 {
                assert(nwidth * nheight == 0) by (nonlinear_arith)
                    requires
                        nwidth == 0 || nheight == 0,
                ;
                Ok(Vec::new())
            } else {
                Ok(resize_nearest(&raster, nwidth, nheight))
            }
        },
        Err(error) => Err(error),
    }
}

/// Decodes the bytes of an image file and scales the picture to exactly
/// `nwidth` by `nheight` pixels with the nearest-neighbour filter. The
/// result is the raw pixels, three bytes each, without any header.
///
/// What the file decodes to is the `image` crate's matter and is not
/// stated; whatever it is, the outcome is what [`resize_decoded`] makes of
/// it.
pub fn resize_image(bytes: &Vec<u8>, nwidth: u32, nheight: u32) -> (outcome: Result<
    Vec<u8>,
    ImageError,
>)
    ensures
        exists|decoded: Option<RasterView>|
            outcome_view(outcome) == #[trigger] scaled(decoded, nwidth, nheight),
        outcome matches Ok(pixels) ==> pixels@.len() == 3 * (nwidth * nheight),
        outcome matches Err(error) ==> error == ImageError::Undecodable || error
            == ImageError::TooLarge,
{
    let decoded = decode_rgb8(bytes);
    let ghost seen = decoded.deep_view();
    let outcome = resize_decoded(decoded, nwidth, nheight);
    assert(outcome_view(outcome) == scaled(seen, nwidth, nheight));
    outcome
}

/// Puts an error in the body of its reply.
pub fn error_reply_body(error: &ImageError) -> (body: ReplyBody)
    ensures
        body@ == error_body(error@),
{
    match error {
        ImageError::Unreachable => ReplyBody::Text("could not get response for image".to_owned()),
        ImageError::Status(status) => {
            let number = decimal(*status);
            ReplyBody::Text(String::from_str("status code to get image is ").concat(number.as_str()))
        },
        ImageError::ContentType(declared) => {
            let shown = quoted(declared);
            ReplyBody::Text(String::from_str("response was type: ").concat(shown.as_str()))
        },
        ImageError::Unreadable => ReplyBody::Empty,
        ImageError::Undecodable => ReplyBody::Text("could not decode image".to_owned()),
        ImageError::TooLarge => ReplyBody::Text("could not resize image".to_owned()),
    }
}

/// Makes the reply of the outcome: the raw pixels with status 200, or the
/// error with status 500.
pub fn image_reply(outcome: Result<Vec<u8>, ImageError>) -> (reply: HttpReply)
    ensures
        reply@ == image_reply_for(outcome_view(outcome)),
{
    match outcome {
        Ok(pixels) => HttpReply { status: 200, json: false, body: ReplyBody::Bytes(pixels) },
        Err(error) => HttpReply { status: 500, json: false, body: error_reply_body(&error) },
    }
}

/// Answers a request for a scaled image, given what came of fetching it.
///
/// A fetch without response, a status other than 200, a declared content
/// type that is not JPEG and a body that could not be read are reported in
/// this order, before anything is decoded. Otherwise the body is decoded
/// and scaled to exactly `width` by `height` pixels, and the reply is what
/// [`resize_decoded`] and [`image_reply`] make of the decoded picture,
/// whatever that is. A reply of status 200 carries three bytes for each
/// pixel asked for.
pub fn get_resized_image(fetch: &ImageFetch, width: u32, height: u32) -> (reply: HttpReply)
    ensures
        refusal(fetch@) matches Some(error) ==> reply@ == image_reply_for(Err(error)),
        refusal(fetch@) is None ==> exists|decoded: Option<RasterView>|
            reply@ == image_reply_for(#[trigger] scaled(decoded, width, height)),
        reply.status == 200 || reply.status == 500,
        reply.status == 200 ==> refusal(fetch@) is None && sends_picture(reply@, width, height),
{
    match fetch {
        ImageFetch::Unreachable => image_reply(Err(ImageError::Unreachable)),
        ImageFetch::Response { status, content_type, body } => {
            match check_image_response(*status, content_type) {
                Err(error) => image_reply(Err(error)),
                Ok(_) => match body {
                    None => image_reply(Err(ImageError::Unreadable)),
                    Some(bytes) => {
                        let outcome = resize_image(bytes, width, height);
                        let ghost seen = outcome_view(outcome);
                        let reply = image_reply(outcome);
                        assert(reply@ == image_reply_for(seen));
                        reply
                    },
                },
            }
        },
    }
}

} // verus!
