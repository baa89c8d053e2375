//! Encoding frames as image files and decoding screenshots into frames,
//! with the `image` crate's codecs.

use vstd::prelude::*;
use crate::error::OpenMediaError;
use crate::frames::{Frame, Rgba};
use crate::video::FrameFormat;

verus! {

#[verifier::external_type_specification]
#[verifier::external_body]
pub struct ExImageError(image::ImageError);

/// Name for what `image`'s JPEG encoder writes for an RGB image of
/// `width` x `height` pixels at `quality`.
pub uninterp spec fn jpeg_encoding(rgb: Seq<u8>, width: u32, height: u32, quality: u8) -> Seq<u8>;

/// Name for what `image::load_from_memory` followed by `to_rgba8` makes
/// of a file's bytes: the width, height and RGBA pixel bytes of the
/// decoded image, or nothing when the bytes are not an image it can read.
pub uninterp spec fn decoded_rgba(bytes: Seq<u8>) -> Option<(u32, u32, Seq<u8>)>;

/// Name for what `image` writes for an RGBA image of `width` x `height`
/// pixels saved in `format`.
pub uninterp spec fn image_file_encoding(rgba: Seq<u8>, width: u32, height: u32, format: FrameFormat) -> Seq<u8>;

/// Whether an RGBA image of `width` x `height` pixels can be saved in
/// `format`: never as JPEG, as PNG when neither side is zero, as WebP when
/// both sides lie between 1 and 16384.
pub open spec fn image_file_writable(width: u32, height: u32, format: FrameFormat) -> bool {
    match format {
        FrameFormat::Jpeg => false,
        FrameFormat::Png => width >= 1 && height >= 1,
        FrameFormat::Webp => 1 <= width <= 16384 && 1 <= height <= 16384,
    }
}

/// Saves RGBA pixel bytes in an image file format with `image`'s
/// `ImageBuffer::write_to` (PNG, JPEG or WebP encoder) into a byte vector.
/// The bytes written are named `image_file_encoding`. Writing to a vector
/// does not fail, so the encoders decide alone: the JPEG encoder refuses
/// RGBA pixels, so saving as JPEG always fails; the PNG writer refuses a
/// zero width or height and nothing else (its image data goes out in
/// chunks small enough for any image); the lossless WebP encoder refuses a
/// width or height outside 1 to 16384 and nothing else. The buffer must
/// hold exactly four bytes per pixel (`ImageBuffer::from_raw` gives
/// nothing otherwise).
#[verifier::external_body]
fn image_file_bytes(rgba: &Vec<u8>, width: u32, height: u32, format: FrameFormat) -> (r: Result<
    Vec<u8>,
    image::ImageError,
>)
    requires
        rgba@.len() == width * height * 4,
    ensures
        r matches Ok(bytes) ==> bytes@ == image_file_encoding(rgba@, width, height, format),
        r is Ok <==> image_file_writable(width, height, format),
{
    let img = image::RgbaImage::from_raw(width, height, rgba.clone()).unwrap();
    let kind = match format {
        FrameFormat::Png => image::ImageFormat::Png,
        FrameFormat::Jpeg => image::ImageFormat::Jpeg,
        FrameFormat::Webp => image::ImageFormat::WebP,
    };
    let mut bytes = Vec::new();
    let result = img.write_to(&mut std::io::Cursor::new(&mut bytes), kind);
    result.map(|()| bytes)
}

/// Encodes RGB pixel bytes with `image::codecs::jpeg::JpegEncoder`
/// (`new_with_quality`, then `encode` with `ExtendedColorType::Rgb8`) into
/// a byte vector. The encoder refuses a width or height outside 1 to
/// 65535 and cannot fail otherwise, since writing to a vector does not
/// fail; the bytes it writes are named `jpeg_encoding`. It panics unless
/// the buffer holds exactly three bytes per pixel.
#[verifier::external_body]
fn jpeg_encode(rgb: &Vec<u8>, width: u32, height: u32, quality: u8) -> (r: Result<
    Vec<u8>,
    image::ImageError,
>)
    requires
        rgb@.len() == width * height * 3,
    ensures
        r is Ok <==> (1 <= width <= 65535 && 1 <= height <= 65535),
        r matches Ok(bytes) ==> bytes@ == jpeg_encoding(rgb@, width, height, quality),
{
    let mut bytes = Vec::new();
    let result = image::codecs::jpeg::JpegEncoder::new_with_quality(&mut bytes, quality).encode(
        rgb,
        width,
        height,
        image::ExtendedColorType::Rgb8,
    );
    result.map(|()| bytes)
}

/// Decodes an image file held in memory with `image::load_from_memory`
/// (format guessed from the bytes) and converts it with `to_rgba8`. The
/// result is named `decoded_rgba`; the pixel buffer of a decoded image
/// holds exactly four bytes per pixel, since decoders and conversions
/// allocate buffers of the image's size.
#[verifier::external_body]
fn decode_rgba(bytes: &Vec<u8>) -> (r: Result<(u32, u32, Vec<u8>), image::ImageError>)
    ensures
        match r {
            Ok((w, h, px)) => decoded_rgba(bytes@) == Some((w, h, px@)) && px@.len() == 4 * w * h,
            Err(_) => decoded_rgba(bytes@) is None,
        },
{
    let img = image::load_from_memory(bytes)?.to_rgba8();
    let (w, h) = img.dimensions();
    Ok((w, h, img.into_raw()))
}

/// The `Display` text of an image error (std `to_string`); nothing is
/// stated about the text.
#[verifier::external_body]
fn image_error_text(e: &image::ImageError) -> String {
    e.to_string()
}

/// The red, green and blue bytes of a row of pixels, alpha dropped.
pub open spec fn row_rgb(row: Seq<Rgba>) -> Seq<u8>
    decreases row.len(),
{
    if row.len() == 0 {
        Seq::empty()
    } else {
        row_rgb(row.drop_last()) + seq![row.last().r, row.last().g, row.last().b]
    }
}

/// The RGB bytes of rows of pixels, row after row.
pub open spec fn rows_rgb(rows: Seq<Seq<Rgba>>) -> Seq<u8>
    decreases rows.len(),
{
    if rows.len() == 0 {
        Seq::empty()
    } else {
        rows_rgb(rows.drop_last()) + row_rgb(rows.last())
    }
}

/// The RGB bytes of a frame (what `image` keeps of an RGBA image
/// converted to RGB: the alpha channel is dropped).
pub open spec fn frame_rgb(f: &Frame) -> Seq<u8> {
    rows_rgb(f.rows@.map_values(|r: Vec<Rgba>| r@))
}

proof fn lemma_row_rgb_len(row: Seq<Rgba>)
    ensures
        row_rgb(row).len() == 3 * row.len(),
    decreases row.len(),
{
    if row.len() > 0 {
        lemma_row_rgb_len(row.drop_last());
    }
}

proof fn lemma_rows_rgb_len(rows: Seq<Seq<Rgba>>, w: int)
    requires
        forall|y: int| 0 <= y < rows.len() ==> #[trigger] rows[y].len() == w,
    ensures
        rows_rgb(rows).len() == 3 * w * rows.len(),
    decreases rows.len(),
{
    if rows.len() > 0 {
        lemma_rows_rgb_len(rows.drop_last(), w);
        lemma_row_rgb_len(rows.last());
        assert(3 * w * rows.len() == 3 * w * (rows.len() - 1) + 3 * w) by (nonlinear_arith);
    }
}

proof fn lemma_row_rgb_at(row: Seq<Rgba>, x: int)
    requires
        0 <= x < row.len(),
    ensures
        row_rgb(row)[3 * x] == row[x].r,
        row_rgb(row)[3 * x + 1] == row[x].g,
        row_rgb(row)[3 * x + 2] == row[x].b,
    decreases row.len(),
{
    lemma_row_rgb_len(row.drop_last());
    if x < row.len() - 1 {
        lemma_row_rgb_at(row.drop_last(), x);
    }
}

proof fn lemma_rows_rgb_at(rows: Seq<Seq<Rgba>>, w: int, x: int, y: int)
    requires
        forall|k: int| 0 <= k < rows.len() ==> #[trigger] rows[k].len() == w,
        0 <= x < w,
        0 <= y < rows.len(),
    ensures
        rows_rgb(rows)[3 * (y * w + x)] == rows[y][x].r,
        rows_rgb(rows)[3 * (y * w + x) + 1] == rows[y][x].g,
        rows_rgb(rows)[3 * (y * w + x) + 2] == rows[y][x].b,
    decreases rows.len(),
{
    let last = rows.len() - 1;
    let front = rows.drop_last();
    let i = 3 * (y * w + x);
    lemma_rows_rgb_len(front, w);
    lemma_row_rgb_len(rows.last());
    assert(forall|k: int| 0 <= k < front.len() ==> #[trigger] front[k].len() == w);
    assert(rows_rgb(rows) == rows_rgb(front) + row_rgb(rows.last()));
    if y < last {
        lemma_rows_rgb_at(front, w, x, y);
        assert(i + 2 < 3 * w * last) by (nonlinear_arith)
            requires
                i == 3 * (y * w + x),
                0 <= x < w,
                0 <= y < last,
        ;
        assert(front[y] == rows[y]);
    } else {
        lemma_row_rgb_at(rows.last(), x);
        assert(i == 3 * w * last + 3 * x) by (nonlinear_arith)
            requires
                i == 3 * (y * w + x),
                y == last,
        ;
    }
}

/// The RGB bytes of a well-formed frame are its pixels in row order, three
/// bytes each with the channels in order red, green, blue: pixel `(x, y)`
/// starts at byte `3 * (y * width + x)`, and there is nothing else.
pub proof fn lemma_frame_rgb_pixels(f: &Frame)
    requires
        f.wf(),
    ensures
        frame_rgb(f).len() == 3 * f.width * f.height,
        forall|x: int, y: int|
            0 <= x < f.width && 0 <= y < f.height ==> {
                &&& #[trigger] frame_rgb(f)[3 * (y * f.width + x)] == f.px(x, y).r
                &&& frame_rgb(f)[3 * (y * f.width + x) + 1] == f.px(x, y).g
                &&& frame_rgb(f)[3 * (y * f.width + x) + 2] == f.px(x, y).b
            },
{
    let rows = f.rows@.map_values(|r: Vec<Rgba>| r@);
    let w = f.width as int;
    assert(forall|k: int| 0 <= k < rows.len() ==> #[trigger] rows[k].len() == w);
    lemma_rows_rgb_len(rows, w);
    assert forall|x: int, y: int| 0 <= x < f.width && 0 <= y < f.height implies {
        &&& #[trigger] frame_rgb(f)[3 * (y * f.width + x)] == f.px(x, y).r
        &&& frame_rgb(f)[3 * (y * f.width + x) + 1] == f.px(x, y).g
        &&& frame_rgb(f)[3 * (y * f.width + x) + 2] == f.px(x, y).b
    } by {
        lemma_rows_rgb_at(rows, w, x, y);
    }
}

/// The RGB bytes of a frame.
fn frame_rgb_bytes(f: &Frame) -> (v: Vec<u8>)
    requires
        f.wf(),
    ensures
        v@ == frame_rgb(f),
        v@.len() == f.width * f.height * 3,
{
    let ghost rows = f.rows@.map_values(|r: Vec<Rgba>| r@);
    let mut v: Vec<u8> = Vec::new();
    let mut y: usize = 0;
    while y < f.rows.len()
        invariant
            y <= f.rows@.len(),
            rows == f.rows@.map_values(|r: Vec<Rgba>| r@),
            v@ == rows_rgb(rows.take(y as int)),
        decreases f.rows@.len() - y,
    {
        let row = &f.rows[y];
        let ghost before = v@;
        let mut x: usize = 0;
        while x < row.len()
            invariant
                x <= row@.len(),
                v@ == before + row_rgb(row@.take(x as int)),
            decreases row@.len() - x,
        {
            let p = row[x];
            v.push(p.r);
            v.push(p.g);
            v.push(p.b);
            assert(row@.take(x + 1).drop_last() =~= row@.take(x as int));
            assert(v@ =~= before + row_rgb(row@.take(x + 1)));
            x = x + 1;
        }
        assert(row@.take(row@.len() as int) =~= row@);
        assert(rows.take(y + 1).drop_last() =~= rows.take(y as int));
        assert(rows.take(y + 1).last() == row@);
        assert(v@ =~= rows_rgb(rows.take(y + 1)));
        y = y + 1;
    }
    assert(rows.take(f.rows@.len() as int) =~= rows);
    proof {
        assert forall|k: int| 0 <= k < rows.len() implies #[trigger] rows[k].len() == f.width by {
            assert(rows[k] == f.rows@[k]@);
        }
        lemma_rows_rgb_len(rows, f.width as int);
        assert(3 * (f.width as int) * (f.height as int) == f.width * f.height * 3) by (
        nonlinear_arith);
    }
    v
}

/// The JPEG file of a video frame, at quality 95, as the video encoder
/// is fed: the frame's RGB bytes encoded when its width and height lie
/// between 1 and 65535, else a JPEG encoding error.
pub fn encode_frame_jpeg(frame: &Frame) -> (r: Result<Vec<u8>, OpenMediaError>)
    requires
        frame.wf(),
    ensures
        (1 <= frame.width <= 65535 && 1 <= frame.height <= 65535) ==> (r matches Ok(bytes)
            && bytes@ == jpeg_encoding(frame_rgb(frame), frame.width, frame.height, 95)),
        !(1 <= frame.width <= 65535 && 1 <= frame.height <= 65535) ==> (r matches Err(
            OpenMediaError::ImageEncodeError { format, .. },
        ) && format@ == "jpeg"@),
{
    let rgb = frame_rgb_bytes(frame);
    match jpeg_encode(&rgb, frame.width, frame.height, 95) {
        Ok(bytes) => Ok(bytes),
        Err(e) => Err(
            OpenMediaError::ImageEncodeError {
                format: String::from_str("jpeg"),
                reason: image_error_text(&e),
            },
        ),
    }
}

/// The rows of a frame of `width` x `height` pixels held as RGBA bytes,
/// row after row.
pub open spec fn rgba_rows(px: Seq<u8>, width: nat, height: nat) -> Seq<Seq<Rgba>> {
    Seq::new(
        height,
        |y: int|
            Seq::new(
                width,
                |x: int|
                    {
                        let i = 4 * (y * width + x);
                        Rgba { r: px[i], g: px[i + 1], b: px[i + 2], a: px[i + 3] }
                    },
            ),
    )
}

/// The frame of a screenshot: the image file decoded and read as RGBA
/// pixels, or a decoding error when the bytes are not an image.
pub fn decode_frame(bytes: &Vec<u8>) -> (r: Result<Frame, OpenMediaError>)
    ensures
        match decoded_rgba(bytes@) {
            Some((w, h, px)) => r matches Ok(f) && f.wf() && f.width == w && f.height == h
                && f.rows@.map_values(|row: Vec<Rgba>| row@) == rgba_rows(px, w as nat, h as nat),
            None => r matches Err(OpenMediaError::ImageDecodeError(_)),
        },
{
    match decode_rgba(bytes) {
        Err(e) => Err(OpenMediaError::ImageDecodeError(image_error_text(&e))),
        Ok((w, h, px)) => {
            let n = px.len();
            let ghost want = rgba_rows(px@, w as nat, h as nat);
            let mut rows: Vec<Vec<Rgba>> = Vec::new();
            let mut y: u32 = 0;
            while y < h
                invariant
                    y <= h,
                    px@.len() == 4 * w * h,
                    n == px@.len(),
                    want == rgba_rows(px@, w as nat, h as nat),
                    rows@.len() == y,
                    forall|k: int| 0 <= k < y ==> (#[trigger] rows@[k])@ == want[k],
                decreases h - y,
            {
                let mut row: Vec<Rgba> = Vec::new();
                let mut x: u32 = 0;
                while x < w
                    invariant
                        x <= w,
                        y < h,
                        px@.len() == 4 * w * h,
                        n == px@.len(),
                        want == rgba_rows(px@, w as nat, h as nat),
                        row@.len() == x,
                        forall|k: int| 0 <= k < x ==> #[trigger] row@[k] == want[y as int][k],
                    decreases w - x,
                {
                    let yu = y as usize;
                    let wu = w as usize;
                    let xu = x as usize;
                    proof {
                        assert(yu * wu + xu < wu * (h as int)) by (nonlinear_arith)
                            requires
                                xu < wu,
                                yu < h,
                        ;
                        assert(4 * (w as int) * (h as int) == 4 * (wu * (h as int))) by (
                        nonlinear_arith)
                            requires
                                wu == w,
                        ;
                    }
                    let i: usize = 4 * (yu * wu + xu);
                    row.push(Rgba { r: px[i], g: px[i + 1], b: px[i + 2], a: px[i + 3] });
                    x = x + 1;
                }
                assert(row@ =~= want[y as int]);
                rows.push(row);
                y = y + 1;
            }
            let f = Frame { width: w, height: h, rows };
            assert(f.rows@.map_values(|row: Vec<Rgba>| row@) =~= want);
            Ok(f)
        },
    }
}

/// The RGBA bytes of a row of pixels.
pub open spec fn row_rgba(row: Seq<Rgba>) -> Seq<u8>
    decreases row.len(),
{
    if row.len() == 0 {
        Seq::empty()
    } else {
        row_rgba(row.drop_last()) + seq![row.last().r, row.last().g, row.last().b, row.last().a]
    }
}

/// The RGBA bytes of rows of pixels, row after row.
pub open spec fn rows_rgba(rows: Seq<Seq<Rgba>>) -> Seq<u8>
    decreases rows.len(),
{
    if rows.len() == 0 {
        Seq::empty()
    } else {
        rows_rgba(rows.drop_last()) + row_rgba(rows.last())
    }
}

/// The RGBA bytes of a frame, row after row.
pub open spec fn frame_rgba(f: &Frame) -> Seq<u8> {
    rows_rgba(f.rows@.map_values(|r: Vec<Rgba>| r@))
}

proof fn lemma_row_rgba_len(row: Seq<Rgba>)
    ensures
        row_rgba(row).len() == 4 * row.len(),
    decreases row.len(),
{
    if row.len() > 0 {
        lemma_row_rgba_len(row.drop_last());
    }
}

proof fn lemma_rows_rgba_len(rows: Seq<Seq<Rgba>>, w: int)
    requires
        forall|y: int| 0 <= y < rows.len() ==> #[trigger] rows[y].len() == w,
    ensures
        rows_rgba(rows).len() == 4 * w * rows.len(),
    decreases rows.len(),
{
    if rows.len() > 0 {
        lemma_rows_rgba_len(rows.drop_last(), w);
        lemma_row_rgba_len(rows.last());
        assert(4 * w * rows.len() == 4 * w * (rows.len() - 1) + 4 * w) by (nonlinear_arith);
    }
}

proof fn lemma_row_rgba_at(row: Seq<Rgba>, x: int)
    requires
        0 <= x < row.len(),
    ensures
        row_rgba(row)[4 * x] == row[x].r,
        row_rgba(row)[4 * x + 1] == row[x].g,
        row_rgba(row)[4 * x + 2] == row[x].b,
        row_rgba(row)[4 * x + 3] == row[x].a,
    decreases row.len(),
{
    lemma_row_rgba_len(row.drop_last());
    if x < row.len() - 1 {
        lemma_row_rgba_at(row.drop_last(), x);
    }
}

proof fn lemma_rows_rgba_at(rows: Seq<Seq<Rgba>>, w: int, x: int, y: int)
    requires
        forall|k: int| 0 <= k < rows.len() ==> #[trigger] rows[k].len() == w,
        0 <= x < w,
        0 <= y < rows.len(),
    ensures
        rows_rgba(rows)[4 * (y * w + x)] == rows[y][x].r,
        rows_rgba(rows)[4 * (y * w + x) + 1] == rows[y][x].g,
        rows_rgba(rows)[4 * (y * w + x) + 2] == rows[y][x].b,
        rows_rgba(rows)[4 * (y * w + x) + 3] == rows[y][x].a,
    decreases rows.len(),
{
    let last = rows.len() - 1;
    let front = rows.drop_last();
    let i = 4 * (y * w + x);
    lemma_rows_rgba_len(front, w);
    lemma_row_rgba_len(rows.last());
    assert(forall|k: int| 0 <= k < front.len() ==> #[trigger] front[k].len() == w);
    assert(rows_rgba(rows) == rows_rgba(front) + row_rgba(rows.last()));
    if y < last {
        lemma_rows_rgba_at(front, w, x, y);
        assert(i + 3 < 4 * w * last) by (nonlinear_arith)
            requires
                i == 4 * (y * w + x),
                0 <= x < w,
                0 <= y < last,
        ;
        assert(front[y] == rows[y]);
    } else {
        lemma_row_rgba_at(rows.last(), x);
        assert(i == 4 * w * last + 4 * x) by (nonlinear_arith)
            requires
                i == 4 * (y * w + x),
                y == last,
        ;
    }
}

/// The RGBA bytes of a well-formed frame are its pixels in row order, four
/// bytes each with the channels in order red, green, blue, alpha: pixel
/// `(x, y)` starts at byte `4 * (y * width + x)`, and there is nothing else.
pub proof fn lemma_frame_rgba_pixels(f: &Frame)
    requires
        f.wf(),
    ensures
        frame_rgba(f).len() == 4 * f.width * f.height,
        forall|x: int, y: int|
            0 <= x < f.width && 0 <= y < f.height ==> {
                &&& #[trigger] frame_rgba(f)[4 * (y * f.width + x)] == f.px(x, y).r
                &&& frame_rgba(f)[4 * (y * f.width + x) + 1] == f.px(x, y).g
                &&& frame_rgba(f)[4 * (y * f.width + x) + 2] == f.px(x, y).b
                &&& frame_rgba(f)[4 * (y * f.width + x) + 3] == f.px(x, y).a
            },
{
    let rows = f.rows@.map_values(|r: Vec<Rgba>| r@);
    let w = f.width as int;
    assert(forall|k: int| 0 <= k < rows.len() ==> #[trigger] rows[k].len() == w);
    lemma_rows_rgba_len(rows, w);
    assert forall|x: int, y: int| 0 <= x < f.width && 0 <= y < f.height implies {
        &&& #[trigger] frame_rgba(f)[4 * (y * f.width + x)] == f.px(x, y).r
        &&& frame_rgba(f)[4 * (y * f.width + x) + 1] == f.px(x, y).g
        &&& frame_rgba(f)[4 * (y * f.width + x) + 2] == f.px(x, y).b
        &&& frame_rgba(f)[4 * (y * f.width + x) + 3] == f.px(x, y).a
    } by {
        lemma_rows_rgba_at(rows, w, x, y);
    }
}

/// The RGBA bytes of a frame.
fn frame_rgba_bytes(f: &Frame) -> (v: Vec<u8>)
    requires
        f.wf(),
    ensures
        v@ == frame_rgba(f),
        v@.len() == f.width * f.height * 4,
{
    let ghost rows = f.rows@.map_values(|r: Vec<Rgba>| r@);
    let mut v: Vec<u8> = Vec::new();
    let mut y: usize = 0;
    while y < f.rows.len()
        invariant
            y <= f.rows@.len(),
            rows == f.rows@.map_values(|r: Vec<Rgba>| r@),
            v@ == rows_rgba(rows.take(y as int)),
        decreases f.rows@.len() - y,
    {
        let row = &f.rows[y];
        let ghost before = v@;
        let mut x: usize = 0;
        while x < row.len()
            invariant
                x <= row@.len(),
                v@ == before + row_rgba(row@.take(x as int)),
            decreases row@.len() - x,
        {
            let p = row[x];
            v.push(p.r);
            v.push(p.g);
            v.push(p.b);
            v.push(p.a);
            assert(row@.take(x + 1).drop_last() =~= row@.take(x as int));
            assert(v@ =~= before + row_rgba(row@.take(x + 1)));
            x = x + 1;
        }
        assert(row@.take(row@.len() as int) =~= row@);
        assert(rows.take(y + 1).drop_last() =~= rows.take(y as int));
        assert(rows.take(y + 1).last() == row@);
        assert(v@ =~= rows_rgba(rows.take(y + 1)));
        y = y + 1;
    }
    assert(rows.take(f.rows@.len() as int) =~= rows);
    proof {
        assert forall|k: int| 0 <= k < rows.len() implies #[trigger] rows[k].len() == f.width by {
            assert(rows[k] == f.rows@[k]@);
        }
        lemma_rows_rgba_len(rows, f.width as int);
        assert(4 * (f.width as int) * (f.height as int) == f.width * f.height * 4) by (
        nonlinear_arith);
    }
    v
}

/// A frame saved as an image file in `format`, as a preview is written:
/// the encoded file when the format can hold a frame of that size
/// (`image_file_writable`: never JPEG, whose encoder refuses RGBA pixels;
/// PNG of any non-empty frame; WebP of sides up to 16384), else the
/// encoder's message.
pub fn encode_frame_as(frame: &Frame, format: FrameFormat) -> (r: Result<Vec<u8>, String>)
    requires
        frame.wf(),
    ensures
        r matches Ok(bytes) ==> bytes@ == image_file_encoding(
            frame_rgba(frame),
            frame.width,
            frame.height,
            format,
        ),
        r is Ok <==> image_file_writable(frame.width, frame.height, format),
{
    let rgba = frame_rgba_bytes(frame);
    match image_file_bytes(&rgba, frame.width, frame.height, format) {
        Ok(bytes) => Ok(bytes),
        Err(e) => Err(image_error_text(&e)),
    }
}

} // verus!
