use playback_proxy::resize::{declares_jpeg, error_reply_body, resize_decoded, scalable};
use playback_proxy::{
    check_image_response, get_resized_image, image_reply, resize_image, HttpReply, ImageError,
    ImageFetch, Raster, ReplyBody,
};

const RED: [u8; 3] = [255, 0, 0];
const GREEN: [u8; 3] = [0, 255, 0];
const BLUE: [u8; 3] = [0, 0, 255];
const GREY: [u8; 3] = [90, 90, 90];

fn pixels(colours: &[[u8; 3]]) -> Vec<u8> {
    colours.iter().flat_map(|colour| colour.iter().copied()).collect()
}

/// An uncompressed 24-bit bitmap file of the given pixels, which come row by
/// row from the top, three bytes each for red, green and blue.
fn bitmap(width: u32, height: u32, rgb: &[u8]) -> Vec<u8> {
    let row = width as usize * 3;
    let padded = (row + 3) / 4 * 4;
    let data = padded * height as usize;
    let mut file = Vec::new();
    file.extend_from_slice(b"BM");
    file.extend_from_slice(&((54 + data) as u32).to_le_bytes());
    file.extend_from_slice(&[0; 4]);
    file.extend_from_slice(&54u32.to_le_bytes());
    file.extend_from_slice(&40u32.to_le_bytes());
    file.extend_from_slice(&(width as i32).to_le_bytes());
    file.extend_from_slice(&(height as i32).to_le_bytes());
    file.extend_from_slice(&1u16.to_le_bytes());
    file.extend_from_slice(&24u16.to_le_bytes());
    file.extend_from_slice(&0u32.to_le_bytes());
    file.extend_from_slice(&(data as u32).to_le_bytes());
    file.extend_from_slice(&2835u32.to_le_bytes());
    file.extend_from_slice(&2835u32.to_le_bytes());
    file.extend_from_slice(&0u32.to_le_bytes());
    file.extend_from_slice(&0u32.to_le_bytes());
    for y in (0..height as usize).rev() {
        for x in 0..width as usize {
            let at = (y * width as usize + x) * 3;
            file.extend_from_slice(&[rgb[at + 2], rgb[at + 1], rgb[at]]);
        }
        file.resize(file.len() + padded - row, 0);
    }
    file
}

fn square() -> Vec<u8> {
    bitmap(2, 2, &pixels(&[RED, GREEN, BLUE, GREY]))
}

fn error(text: &str) -> HttpReply {
    HttpReply { status: 500, json: false, body: ReplyBody::Text(text.to_string()) }
}

fn jpeg_response(body: Option<Vec<u8>>) -> ImageFetch {
    ImageFetch::Response { status: 200, content_type: Some(b"image/jpeg".to_vec()), body }
}

#[test]
fn both_spellings_of_jpeg_are_accepted() {
    assert!(declares_jpeg(&b"image/jpeg".to_vec()));
    assert!(declares_jpeg(&b"image/jpg".to_vec()));
}

#[test]
fn other_content_types_are_not_jpeg() {
    assert!(!declares_jpeg(&b"image/png".to_vec()));
    assert!(!declares_jpeg(&b"image/jpeg; charset=utf-8".to_vec()));
    assert!(!declares_jpeg(&b"IMAGE/JPEG".to_vec()));
    assert!(!declares_jpeg(&b"image/jpe".to_vec()));
    assert!(!declares_jpeg(&b"text/html".to_vec()));
    assert!(!declares_jpeg(&Vec::new()));
}

#[test]
fn a_response_passes_with_status_200_and_jpeg_or_no_content_type() {
    assert_eq!(check_image_response(200, &Some(b"image/jpeg".to_vec())), Ok(()));
    assert_eq!(check_image_response(200, &Some(b"image/jpg".to_vec())), Ok(()));
    assert_eq!(check_image_response(200, &None), Ok(()));
}

#[test]
fn a_status_other_than_200_is_refused_first() {
    assert_eq!(check_image_response(404, &None), Err(ImageError::Status(404)));
    assert_eq!(
        check_image_response(204, &Some(b"image/jpeg".to_vec())),
        Err(ImageError::Status(204))
    );
    assert_eq!(
        check_image_response(500, &Some(b"text/html".to_vec())),
        Err(ImageError::Status(500))
    );
}

#[test]
fn a_content_type_other_than_jpeg_is_refused() {
    assert_eq!(
        check_image_response(200, &Some(b"text/html".to_vec())),
        Err(ImageError::ContentType(b"text/html".to_vec()))
    );
}

#[test]
fn every_error_has_its_body() {
    assert_eq!(
        error_reply_body(&ImageError::Unreachable),
        ReplyBody::Text("could not get response for image".to_string())
    );
    assert_eq!(
        error_reply_body(&ImageError::Status(404)),
        ReplyBody::Text("status code to get image is 404".to_string())
    );
    assert_eq!(
        error_reply_body(&ImageError::ContentType(b"image/png".to_vec())),
        ReplyBody::Text("response was type: \"image/png\"".to_string())
    );
    assert_eq!(error_reply_body(&ImageError::Unreadable), ReplyBody::Empty);
    assert_eq!(
        error_reply_body(&ImageError::Undecodable),
        ReplyBody::Text("could not decode image".to_string())
    );
    assert_eq!(
        error_reply_body(&ImageError::TooLarge),
        ReplyBody::Text("could not resize image".to_string())
    );
}

#[test]
fn the_reply_sends_pixels_with_200_and_errors_with_500() {
    assert_eq!(
        image_reply(Ok(vec![1, 2, 3])),
        HttpReply { status: 200, json: false, body: ReplyBody::Bytes(vec![1, 2, 3]) }
    );
    assert_eq!(image_reply(Err(ImageError::Status(301))), error("status code to get image is 301"));
    assert_eq!(
        image_reply(Err(ImageError::Unreadable)),
        HttpReply { status: 500, json: false, body: ReplyBody::Empty }
    );
}

#[test]
fn a_fetch_without_response_is_reported() {
    assert_eq!(
        get_resized_image(&ImageFetch::Unreachable, 10, 10),
        error("could not get response for image")
    );
}

#[test]
fn a_bad_status_is_reported_with_its_number() {
    let fetch = ImageFetch::Response {
        status: 404,
        content_type: Some(b"image/jpeg".to_vec()),
        body: Some(square()),
    };
    assert_eq!(get_resized_image(&fetch, 1, 1), error("status code to get image is 404"));
}

#[test]
fn a_wrong_content_type_is_named_in_the_reply_and_nothing_is_decoded() {
    for body in [Some(square()), Some(b"not a picture".to_vec()), None] {
        let fetch =
            ImageFetch::Response { status: 200, content_type: Some(b"text/html".to_vec()), body };
        assert_eq!(get_resized_image(&fetch, 1, 1), error("response was type: \"text/html\""));
    }
}

#[test]
fn a_content_type_with_bytes_that_do_not_print_is_escaped() {
    let fetch = ImageFetch::Response {
        status: 200,
        content_type: Some(vec![b'a', b'"', 0xe9, b'\t']),
        body: Some(square()),
    };
    assert_eq!(get_resized_image(&fetch, 1, 1), error("response was type: \"a\\\"\\xe9\t\""));
}

#[test]
fn a_body_that_could_not_be_read_gives_an_empty_error() {
    assert_eq!(
        get_resized_image(&jpeg_response(None), 1, 1),
        HttpReply { status: 500, json: false, body: ReplyBody::Empty }
    );
}

#[test]
fn a_body_that_is_no_picture_is_reported() {
    assert_eq!(
        get_resized_image(&jpeg_response(Some(b"not a picture".to_vec())), 1, 1),
        error("could not decode image")
    );
    assert_eq!(resize_image(&Vec::new(), 1, 1), Err(ImageError::Undecodable));
    assert_eq!(resize_image(&square()[..40].to_vec(), 1, 1), Err(ImageError::Undecodable));
}

#[test]
fn a_picture_at_its_own_size_comes_back_as_its_pixels() {
    assert_eq!(resize_image(&square(), 2, 2), Ok(pixels(&[RED, GREEN, BLUE, GREY])));
}

#[test]
fn a_response_without_content_type_is_decoded() {
    let fetch = ImageFetch::Response { status: 200, content_type: None, body: Some(square()) };
    assert_eq!(
        get_resized_image(&fetch, 2, 2),
        HttpReply {
            status: 200,
            json: false,
            body: ReplyBody::Bytes(pixels(&[RED, GREEN, BLUE, GREY])),
        }
    );
}

#[test]
fn scaling_up_repeats_the_nearest_pixel() {
    let wide = bitmap(2, 1, &pixels(&[RED, BLUE]));
    assert_eq!(
        resize_image(&wide, 4, 2),
        Ok(pixels(&[RED, RED, BLUE, BLUE, RED, RED, BLUE, BLUE]))
    );
}

#[test]
fn scaling_down_picks_the_nearest_pixel() {
    assert_eq!(resize_image(&square(), 1, 1), Ok(pixels(&[GREY])));
    let wide = bitmap(4, 1, &pixels(&[RED, GREEN, BLUE, GREY]));
    assert_eq!(resize_image(&wide, 2, 1), Ok(pixels(&[GREEN, GREY])));
}

#[test]
fn scaling_gives_exactly_the_size_asked_for() {
    let wide = bitmap(2, 1, &pixels(&[RED, BLUE]));
    assert_eq!(
        resize_image(&wide, 4, 4),
        Ok(pixels(&[
            RED, RED, BLUE, BLUE, RED, RED, BLUE, BLUE, RED, RED, BLUE, BLUE, RED, RED, BLUE,
            BLUE,
        ]))
    );
    assert_eq!(resize_image(&square(), 1, 4), Ok(pixels(&[GREEN, GREEN, GREY, GREY])));
    assert_eq!(resize_image(&square(), 4, 1), Ok(pixels(&[BLUE, BLUE, GREY, GREY])));
}

#[test]
fn a_size_without_pixels_gives_an_empty_picture() {
    assert_eq!(resize_image(&square(), 0, 0), Ok(Vec::new()));
    assert_eq!(resize_image(&square(), 0, 5), Ok(Vec::new()));
    assert_eq!(resize_image(&square(), 5, 0), Ok(Vec::new()));
    assert_eq!(
        get_resized_image(&jpeg_response(Some(square())), 0, 3),
        HttpReply { status: 200, json: false, body: ReplyBody::Bytes(Vec::new()) }
    );
    assert_eq!(resize_image(&b"not a picture".to_vec(), 0, 0), Err(ImageError::Undecodable));
}

#[test]
fn the_scaled_picture_is_sent_raw() {
    assert_eq!(
        get_resized_image(&jpeg_response(Some(square())), 1, 1),
        HttpReply { status: 200, json: false, body: ReplyBody::Bytes(pixels(&[GREY])) }
    );
}

#[test]
fn bounds_beyond_what_can_be_allocated_are_refused() {
    assert_eq!(resize_image(&square(), u32::MAX, u32::MAX), Err(ImageError::TooLarge));
    assert_eq!(
        get_resized_image(&jpeg_response(Some(square())), u32::MAX, u32::MAX),
        error("could not resize image")
    );
}

#[test]
fn what_was_decoded_has_to_be_a_picture() {
    assert_eq!(scalable(None, 1, 1), Err(ImageError::Undecodable));
    let empty = Raster { width: 0, height: 3, pixels: vec![] };
    assert_eq!(scalable(Some(empty), 1, 1), Err(ImageError::Undecodable));
    let flat = Raster { width: 3, height: 0, pixels: vec![] };
    assert_eq!(scalable(Some(flat), 1, 1), Err(ImageError::Undecodable));
    let short = Raster { width: 2, height: 2, pixels: vec![0; 11] };
    assert_eq!(scalable(Some(short), 1, 1), Err(ImageError::Undecodable));
    let whole = Raster { width: 2, height: 2, pixels: vec![0; 12] };
    assert_eq!(scalable(Some(whole.clone()), 1, 1), Ok(whole));
}

#[test]
fn scalable_weighs_the_target_and_the_picture_in_between() {
    let dot = Raster { width: 1, height: 1, pixels: vec![1, 2, 3] };
    assert_eq!(scalable(Some(dot.clone()), 1, 1), Ok(dot.clone()));
    assert_eq!(scalable(Some(dot.clone()), u32::MAX, 1), Ok(dot.clone()));
    assert_eq!(scalable(Some(dot.clone()), 0, u32::MAX), Ok(dot.clone()));
    assert_eq!(scalable(Some(dot.clone()), u32::MAX, u32::MAX), Err(ImageError::TooLarge));
    let most = isize::MAX as u128 / 3;
    let side = 1u128 << 31;
    if most / side <= u32::MAX as u128 {
        let fits = (most / side) as u32;
        assert_eq!(scalable(Some(dot.clone()), side as u32, fits), Ok(dot.clone()));
        assert_eq!(scalable(Some(dot), side as u32, fits + 1), Err(ImageError::TooLarge));
    }
}

#[test]
fn resize_decoded_scales_a_picture_given_in_pixels() {
    let picture = Raster { width: 2, height: 2, pixels: pixels(&[RED, GREEN, BLUE, GREY]) };
    assert_eq!(resize_decoded(Some(picture), 1, 1), Ok(pixels(&[GREY])));
    assert_eq!(resize_decoded(None, 1, 1), Err(ImageError::Undecodable));
}

#[test]
fn the_scaled_picture_has_three_bytes_for_each_pixel_asked_for() {
    for width in 1u32..=5 {
        for height in 1u32..=5 {
            let source = bitmap(width, height, &vec![7u8; (width * height * 3) as usize]);
            for nwidth in 0u32..=9 {
                for nheight in 0u32..=9 {
                    let scaled = resize_image(&source, nwidth, nheight).unwrap();
                    assert_eq!(scaled.len(), (3 * nwidth * nheight) as usize);
                    assert!(scaled.iter().all(|byte| *byte == 7));
                }
            }
        }
    }
}
