//! Thumbnail production for the content picker: one captured BGRA frame
//! becomes an aspect-fitted JPEG, carried as a base64 data URL next to
//! the display's identifier and title.
//!
//! The pixel resampling, the JPEG encoding and the base64 encoding come
//! from outside the library, behind the trusted functions below; the
//! stride stripping, the channel swizzle and the assembly are verified.

use vstd::prelude::*;
use vstd::string::StringExecFns;
use base64::Engine;
use crate::geometry::{aspect_fit, spec_aspect_fit};
use crate::messages::{CaptureContent, Content, ContentType};

verus! {

/// JPEG quality of the thumbnails.
pub const JPEG_QUALITY: u8 = 70;

/// Width of the box thumbnails are aspect-fitted into.
pub const THUMBNAIL_WIDTH: u32 = 480;

/// Height of the box thumbnails are aspect-fitted into.
pub const THUMBNAIL_HEIGHT: u32 = 360;

/// The base64 text of a byte string, as the standard padded alphabet
/// encodes it.
pub uninterp spec fn base64_of(bytes: Seq<u8>) -> Seq<char>;

/// The JPEG encoding of an RGB image at the given quality.
pub uninterp spec fn jpeg_of(pixels: Seq<u8>, width: u32, height: u32, quality: u8) -> Seq<u8>;

/// The nearest-neighbor resampling of an RGBA image to new dimensions.
pub uninterp spec fn resized_rgba(
    pixels: Seq<u8>,
    width: u32,
    height: u32,
    new_width: u32,
    new_height: u32,
) -> Seq<u8>;

/// Relies on base64's `Engine::encode` with the `STANDARD` engine: four
/// output characters for every started group of three input bytes,
/// padded, and the same characters for the same bytes everywhere.
#[verifier::external_body]
fn base64_encode(data: &Vec<u8>) -> (r: String)
    requires
        data@.len() <= 0x3FFF_FFFF,
    ensures
        r@ == base64_of(data@),
        r@.len() == 4 * ((data@.len() + 2) / 3),
{
    base64::engine::general_purpose::STANDARD.encode(data.as_slice())
}

/// Relies on image's `JpegEncoder::encode` writing into a byte vector:
/// it demands exactly three bytes per pixel, succeeds for every width
/// and height up to 65535 (larger dimensions fail the format's 16-bit
/// size fields and return an error, never a panic; the byte-vector
/// writer itself cannot fail), and the same pixels encode to the same
/// bytes everywhere.
#[verifier::external_body]
fn jpeg_encode_rgb(data: &Vec<u8>, width: u32, height: u32, quality: u8) -> (r: Option<Vec<u8>>)
    requires
        data@.len() == 3 * width * height,
        1 <= width <= 100_000,
        1 <= height <= 100_000,
    ensures
        r matches Some(j) ==> j@ == jpeg_of(data@, width, height, quality),
        width <= 65535 && height <= 65535 ==> r is Some,
{
    let mut jpeg: Vec<u8> = Vec::new();
    let mut encoder = image::codecs::jpeg::JpegEncoder::new_with_quality(&mut jpeg, quality);
    match encoder.encode(data.as_slice(), width, height, image::ExtendedColorType::Rgb8) {
        Ok(()) => Some(jpeg),
        Err(_) => None,
    }
}

/// Relies on image's `imageops::resize` with the nearest-neighbor
/// filter, via `ImageBuffer::from_vec` and `into_raw`: a buffer of four
/// bytes per pixel resamples to the new dimensions, four bytes per
/// pixel.
#[verifier::external_body]
fn resize_rgba_nearest(
    data: Vec<u8>,
    width: u32,
    height: u32,
    new_width: u32,
    new_height: u32,
) -> (r: Option<Vec<u8>>)
    requires
        data@.len() == 4 * width * height,
        1 <= width <= 100_000,
        1 <= height <= 100_000,
        1 <= new_width <= 100_000,
        1 <= new_height <= 100_000,
    ensures
        r matches Some(p) ==> p@ == resized_rgba(data@, width, height, new_width, new_height)
            && p@.len() == 4 * new_width * new_height,
        r is Some,
{
    match image::ImageBuffer::<image::Rgba<u8>, Vec<u8>>::from_vec(width, height, data) {
        Some(buffer) => {
            let resized = image::imageops::resize(
                &buffer,
                new_width,
                new_height,
                image::imageops::FilterType::Nearest,
            );
            Some(resized.into_raw())
        },
        None => None,
    }
}

/// The frame's rows with their stride padding removed: the first
/// `4 * width` bytes of each of `height` rows of `stride` bytes.
pub open spec fn stripped_rows(data: Seq<u8>, stride: int, width: int, height: int) -> Seq<u8>
    decreases height,
{
    if height <= 0 {
        Seq::empty()
    } else {
        data.subrange(0, 4 * width) + stripped_rows(data.skip(stride), stride, width, height - 1)
    }
}

/// Removes the stride padding from a captured frame: each row keeps its
/// `4 * width` pixel bytes and drops the rest of its stride.
pub fn strip_stride_padding(data: &Vec<u8>, stride: usize, width: u32, height: u32) -> (r: Vec<u8>)
    requires
        stride >= 4 * width,
        data@.len() >= stride * height,
        width >= 1,
        height >= 1,
    ensures
        r@ == stripped_rows(data@, stride as int, width as int, height as int),
{
    let dlen: usize = data.len();
    let mut out: Vec<u8> = Vec::new();
    let row_bytes: usize = 4 * (width as usize);
    let mut row: usize = 0;
    proof {
        assert(data@.skip(0) =~= data@);
    }
    while row < height as usize
        invariant
            0 <= row <= height,
            row_bytes == 4 * width,
            stride >= row_bytes,
            dlen == data@.len(),
            data@.len() >= stride * height,
            out@ + stripped_rows(
                data@.skip(stride * row),
                stride as int,
                width as int,
                height - row,
            ) == stripped_rows(data@, stride as int, width as int, height as int),
        decreases height - row,
    {
        proof {
            assert(stride * (row + 1) <= stride * height) by (nonlinear_arith)
                requires
                    row + 1 <= height,
                    stride >= 0,
            ;
            assert(stride * row + stride == stride * (row + 1)) by (nonlinear_arith);
        }
        let base: usize = stride * row;
        let ghost rest = data@.skip(stride * row);
        let ghost prefix = out@;
        let mut col: usize = 0;
        proof {
            assert(rest.subrange(0, 0) =~= Seq::<u8>::empty());
            assert(out@ =~= prefix + rest.subrange(0, 0));
        }
        while col < row_bytes
            invariant
                0 <= col <= row_bytes,
                row < height,
                row_bytes == 4 * width,
                stride >= row_bytes,
                dlen == data@.len(),
                data@.len() >= stride * height,
                base == stride * row,
                base + stride <= data@.len(),
                rest == data@.skip(stride * row),
                out@ == prefix + rest.subrange(0, col as int),
            decreases row_bytes - col,
        {
            out.push(data[base + col]);
            col = col + 1;
            assert(out@ =~= prefix + rest.subrange(0, col as int));
        }
        proof {
            assert(stripped_rows(rest, stride as int, width as int, height - row)
                == rest.subrange(0, 4 * width) + stripped_rows(
                rest.skip(stride as int),
                stride as int,
                width as int,
                height - row - 1,
            ));
            assert(rest.skip(stride as int) =~= data@.skip(stride * (row + 1)));
            assert(out@ + stripped_rows(
                data@.skip(stride * (row + 1)),
                stride as int,
                width as int,
                height - (row + 1),
            ) =~= prefix + stripped_rows(rest, stride as int, width as int, height - row));
        }
        row = row + 1;
    }
    proof {
        assert(stripped_rows(
            data@.skip(stride * (height as int)),
            stride as int,
            width as int,
            0,
        ) =~= Seq::<u8>::empty());
        assert(out@ + Seq::<u8>::empty() =~= out@);
    }
    out
}

/// The RGB bytes a BGRA pixel run swizzles to: channels 2, 1 and 0 of
/// every four-byte pixel.
pub open spec fn bgra_swizzle(data: Seq<u8>) -> Seq<u8>
    decreases data.len(),
{
    if data.len() < 4 {
        Seq::empty()
    } else {
        seq![data[2], data[1], data[0]] + bgra_swizzle(data.skip(4))
    }
}

/// Reorders a BGRA pixel buffer into RGB, dropping the alpha channel.
pub fn bgra_to_rgb(data: &Vec<u8>) -> (r: Vec<u8>)
    requires
        data@.len() % 4 == 0,
    ensures
        r@ == bgra_swizzle(data@),
        r@.len() == data@.len() / 4 * 3,
{
    let mut out: Vec<u8> = Vec::new();
    let mut i: usize = 0;
    proof {
        lemma_bgra_swizzle_len(data@);
        assert(data@.skip(0) =~= data@);
    }
    while i < data.len()
        invariant
            0 <= i <= data@.len(),
            i % 4 == 0,
            data@.len() % 4 == 0,
            out@ + bgra_swizzle(data@.skip(i as int)) == bgra_swizzle(data@),
        decreases data@.len() - i,
    {
        proof {
            // A multiple of four below the length leaves at least four bytes.
            assert(i + 4 <= data@.len()) by {
                vstd::arithmetic::div_mod::lemma_fundamental_div_mod(data@.len() as int, 4);
                vstd::arithmetic::div_mod::lemma_fundamental_div_mod(i as int, 4);
                assert((data@.len() as int / 4 - i as int / 4) * 4 == data@.len() - i)
                    by (nonlinear_arith)
                    requires
                        data@.len() as int == 4 * (data@.len() as int / 4),
                        i as int == 4 * (i as int / 4),
                ;
                assert(data@.len() as int / 4 - i as int / 4 >= 1) by (nonlinear_arith)
                    requires
                        (data@.len() as int / 4 - i as int / 4) * 4 == data@.len() - i,
                        data@.len() - i >= 1,
                ;
            }
        }
        let b: u8 = data[i];
        let g: u8 = data[i + 1];
        let rch: u8 = data[i + 2];
        let ghost before_push = out@;
        proof {
            let rest = data@.skip(i as int);
            assert(rest.len() >= 4);
            assert(rest[2] == data@[i + 2]);
            assert(rest[1] == data@[i + 1]);
            assert(rest[0] == data@[i as int]);
            assert(rest.skip(4) =~= data@.skip(i + 4));
            assert(before_push + (seq![data@[i + 2], data@[i + 1], data@[i as int]]
                + bgra_swizzle(data@.skip(i + 4))) =~= (before_push + seq![
                data@[i + 2],
                data@[i + 1],
                data@[i as int],
            ]) + bgra_swizzle(data@.skip(i + 4)));
        }
        out.push(rch);
        out.push(g);
        out.push(b);
        assert(out@ =~= before_push + seq![data@[i + 2], data@[i + 1], data@[i as int]]);
        i = i + 4;
    }
    proof {
        assert(data@.skip(data@.len() as int) =~= Seq::<u8>::empty());
        assert(out@ + Seq::<u8>::empty() =~= out@);
    }
    out
}

/// A swizzled buffer holds three bytes for every whole four-byte pixel.
pub proof fn lemma_bgra_swizzle_len(data: Seq<u8>)
    ensures
        bgra_swizzle(data).len() == data.len() / 4 * 3,
    decreases data.len(),
{
    if data.len() >= 4 {
        lemma_bgra_swizzle_len(data.skip(4));
        assert((data.len() - 4) / 4 == data.len() / 4 - 1);
    }
}

/// Encodes an RGB image as JPEG at the thumbnail quality. The encoder
/// fails only past the format's 16-bit dimension fields: up to 65535
/// pixels a side the result is the encoding itself, beyond that an
/// empty buffer, never a partial one.
pub fn raw_image_to_jpeg(raw_image: &Vec<u8>, width: u32, height: u32) -> (r: Vec<u8>)
    requires
        raw_image@.len() == 3 * width * height,
        1 <= width <= 100_000,
        1 <= height <= 100_000,
    ensures
        r@ == jpeg_of(raw_image@, width, height, JPEG_QUALITY) || r@.len() == 0,
        width <= 65535 && height <= 65535 ==> r@ == jpeg_of(raw_image@, width, height, JPEG_QUALITY),
{
    match jpeg_encode_rgb(raw_image, width, height, JPEG_QUALITY) {
        Some(jpeg) => jpeg,
        None => Vec::new(),
    }
}

/// The preview a delivered frame turns into: stride stripped, the pixels
/// aspect-fitted into the thumbnail box, the channels swizzled to RGB,
/// encoded as JPEG and wrapped as a base64 data URL.
pub open spec fn thumbnail_data_url(
    data: Seq<u8>,
    stride: int,
    width: u32,
    height: u32,
    new_width: u32,
    new_height: u32,
) -> Seq<char> {
    "data:image/jpeg;base64,"@ + base64_of(
        jpeg_of(
            bgra_swizzle(
                resized_rgba(
                    stripped_rows(data, stride, width as int, height as int),
                    width,
                    height,
                    new_width,
                    new_height,
                ),
            ),
            new_width,
            new_height,
            JPEG_QUALITY,
        ),
    )
}

/// Builds the picker entry for one captured frame: the display's
/// identifier and title with the frame's thumbnail as a data URL.
/// Exactly the degenerate frames yield nothing: a zero dimension before
/// or after aspect-fitting, or a thumbnail encoding too large for the
/// base64 engine; every other frame yields its entry.
pub fn build_capture_content(
    frame_data: &Vec<u8>,
    frame_stride: usize,
    frame_width: u32,
    frame_height: u32,
    display_id: u32,
    title: String,
) -> (r: Option<CaptureContent>)
    requires
        frame_stride >= 4 * frame_width,
        frame_data@.len() >= frame_stride * frame_height,
        frame_width <= 100_000,
        frame_height <= 100_000,
    ensures
        ({
            let fitted = spec_aspect_fit(
                frame_width,
                frame_height,
                THUMBNAIL_WIDTH,
                THUMBNAIL_HEIGHT,
            );
            let url = thumbnail_data_url(
                frame_data@,
                frame_stride as int,
                frame_width,
                frame_height,
                fitted.0 as u32,
                fitted.1 as u32,
            );
            let encoded_len = jpeg_of(
                bgra_swizzle(
                    resized_rgba(
                        stripped_rows(
                            frame_data@,
                            frame_stride as int,
                            frame_width as int,
                            frame_height as int,
                        ),
                        frame_width,
                        frame_height,
                        fitted.0 as u32,
                        fitted.1 as u32,
                    ),
                ),
                fitted.0 as u32,
                fitted.1 as u32,
                JPEG_QUALITY,
            ).len();
            &&& (r is Some <==> frame_width >= 1 && frame_height >= 1 && fitted.0 >= 1
                && fitted.1 >= 1 && encoded_len <= 0x3FFF_FFFF)
            &&& (r matches Some(c) ==> {
                &&& c.content == (Content { content_type: ContentType::Display, id: display_id })
                &&& c.title@ == title@
                &&& c.base64@ == url
            })
        }),
{
    if frame_width == 0 || frame_height == 0 {
        return None;
    }
    let fitted = aspect_fit(frame_width, frame_height, THUMBNAIL_WIDTH, THUMBNAIL_HEIGHT);
    if fitted.0 == 0 || fitted.1 == 0 {
        return None;
    }
    let stripped = strip_stride_padding(frame_data, frame_stride, frame_width, frame_height);
    proof {
        lemma_stripped_rows_len(
            frame_data@,
            frame_stride as int,
            frame_width as int,
            frame_height as int,
        );
    }
    let resized = match resize_rgba_nearest(
        stripped,
        frame_width,
        frame_height,
        fitted.0,
        fitted.1,
    ) {
        Some(resized) => resized,
        None => {
            return None;
        },
    };
    proof {
        let px = fitted.0 as int * fitted.1 as int;
        assert(4 * fitted.0 as int * fitted.1 as int == 4 * px && 4 * px == px * 4 && 3
            * fitted.0 as int * fitted.1 as int == 3 * px && 3 * px == px * 3)
            by (nonlinear_arith)
            requires
                px == fitted.0 as int * fitted.1 as int,
        ;
        vstd::arithmetic::div_mod::lemma_mod_multiples_basic(px, 4);
        vstd::arithmetic::div_mod::lemma_div_multiples_vanish(px, 4);
    }
    let rgb = bgra_to_rgb(&resized);
    let jpeg = raw_image_to_jpeg(&rgb, fitted.0, fitted.1);
    if jpeg.len() as u64 > 0x3FFF_FFFFu64 {
        return None;
    }
    let encoded = base64_encode(&jpeg);
    let mut base64_url: String = "data:image/jpeg;base64,".to_owned();
    base64_url.append(encoded.as_str());
    Some(
        CaptureContent {
            content: Content { content_type: ContentType::Display, id: display_id },
            base64: base64_url,
            title,
        },
    )
}

/// A stripped frame holds four bytes per pixel of every row.
pub proof fn lemma_stripped_rows_len(data: Seq<u8>, stride: int, width: int, height: int)
    requires
        stride >= 4 * width,
        width >= 0,
        height >= 0,
        data.len() >= stride * height,
    ensures
        stripped_rows(data, stride, width, height).len() == 4 * width * height,
    decreases height,
{
    if height <= 0 {
        assert(4 * width * 0 == 0) by (nonlinear_arith);
    } else {
        assert(stride <= stride * height) by (nonlinear_arith)
            requires
                stride >= 0,
                height >= 1,
        ;
        assert(stride * (height - 1) <= data.len() - stride) by (nonlinear_arith)
            requires
                stride * height <= data.len(),
                stride >= 0,
                height >= 1,
        ;
        assert(data.subrange(0, 4 * width).len() == 4 * width);
        lemma_stripped_rows_len(data.skip(stride), stride, width, height - 1);
        assert(stripped_rows(data, stride, width, height) == data.subrange(0, 4 * width)
            + stripped_rows(data.skip(stride), stride, width, height - 1));
        assert(4 * width * (height - 1) + 4 * width == 4 * width * height) by (nonlinear_arith);
    }
}

/// The entry a display without a preview gets: a permanent capture error
/// still lists the display, with an empty thumbnail.
pub fn empty_capture_content(display_id: u32, title: String) -> (r: CaptureContent)
    ensures
        r.content == (Content { content_type: ContentType::Display, id: display_id }),
        r.title@ == title@,
        r.base64@.len() == 0,
{
    CaptureContent {
        content: Content { content_type: ContentType::Display, id: display_id },
        base64: String::new(),
        title,
    }
}

/// Whether the collected content already lists the display.
pub fn content_has_display(content: &Vec<CaptureContent>, display_id: u32) -> (r: bool)
    ensures
        r == exists|i: int|
            0 <= i < content@.len() && (#[trigger] content@[i]).content.id == display_id,
{
    let mut i: usize = 0;
    while i < content.len()
        invariant
            0 <= i <= content@.len(),
            forall|j: int| 0 <= j < i ==> (#[trigger] content@[j]).content.id != display_id,
        decreases content@.len() - i,
    {
        if content[i].content.id == display_id {
            return true;
        }
        i = i + 1;
    }
    false
}

} // verus!
