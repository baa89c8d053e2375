//! The parameters of the media tools, and the choices the tools make from
//! them: defaults, format and method names, and which kind of input a
//! text is.

use vstd::prelude::*;
use crate::text::{
    chars_of, decimal, lemma_skip_space_bounds, lemma_trim_end_bounds, lowercase, push_decimal,
    push_str, skip_space, str_eq, string_from_chars, to_lowercase, trim_chars, trimmed,
};
use crate::tools::{spinner_markup, spinner_svg};

verus! {

/// Rasterize an SVG string or file path into an image.
#[derive(Debug, Clone)]
pub struct RasterizeSvgRequest {
    /// Raw SVG XML string or file path to .svg
    pub svg: String,
    /// Target width (maintains aspect ratio if omitted)
    pub width: Option<u32>,
    /// Target height
    pub height: Option<u32>,
    /// Optional background color hex (e.g. #ffffff). Default is transparent.
    pub background_color: Option<String>,
    /// Output format (png, jpeg, webp). Default is png.
    pub output_format: Option<String>,
}

/// Score an image against a prompt.
#[derive(Debug, Clone)]
pub struct ImproveScoreImageRequest {
    /// Absolute path to the generated image file
    pub image_path: String,
    /// Original text prompt used for image generation (optional, for CLIP alignment)
    pub prompt: Option<String>,
}

/// Generate with an automatic refinement loop.
#[derive(Debug, Clone)]
pub struct ImproveAutoRefineRequest {
    /// Initial positive text prompt
    pub prompt: String,
    /// Initial negative prompt (optional)
    pub negative_prompt: Option<String>,
    /// Target image width (optional, defaults to 512)
    pub width: Option<u32>,
    /// Target image height (optional, defaults to 512)
    pub height: Option<u32>,
    /// Maximum refinement iteration attempts (optional, defaults to 3)
    pub max_iterations: Option<u32>,
}

/// Retrieve the quality report.
#[derive(Debug, Clone)]
pub struct ImproveQualityReportRequest {
    /// Optional filter to isolate reports to a specific tool
    pub tool_name: Option<String>,
}

/// Generate a loading spinner.
#[derive(Debug, Clone)]
pub struct GenerateSpinnerRequest {
    /// Spinner style (ring | dots | border | bars)
    pub spinner_type: String,
    /// Color of spinner (e.g. #8b5cf6)
    pub color: Option<String>,
    /// Size in pixels (default 60)
    pub size: Option<u32>,
}

/// Convert Lottie JSON to an animated SVG.
#[derive(Debug, Clone)]
pub struct LottieToSvgRequest {
    /// Lottie JSON content or file path to Lottie JSON
    pub lottie_json: String,
}

/// Export an SVG to Lottie JSON.
#[derive(Debug, Clone)]
pub struct SvgToLottieRequest {
    /// Raw SVG XML string or file path to .svg
    pub svg: String,
}

/// Resize an image.
#[derive(Debug, Clone)]
pub struct ImageResizeRequest {
    /// Path to the input image file
    pub image_path: String,
    /// Target width
    pub width: u32,
    /// Target height
    pub height: u32,
    /// Resize algorithm (nearest, bilinear, lanczos3). Default is bilinear.
    pub algorithm: Option<String>,
}

/// Crop an image.
#[derive(Debug, Clone)]
pub struct ImageCropRequest {
    /// Path to the input image file
    pub image_path: String,
    /// X coordinate of top-left corner
    pub x: u32,
    /// Y coordinate of top-left corner
    pub y: u32,
    /// Width of the cropped region
    pub width: u32,
    /// Height of the cropped region
    pub height: u32,
}

/// Convert an image to another format.
#[derive(Debug, Clone)]
pub struct ImageConvertRequest {
    /// Path to the input image file
    pub image_path: String,
    /// Target output format (png, jpeg, webp, avif)
    pub format: String,
    /// Encoding quality (1-100). Default is 80.
    pub quality: Option<u8>,
}

/// Download a model file.
#[derive(Debug, Clone)]
pub struct ModelDownloadRequest {
    /// Unique model identifier
    pub id: String,
}

/// Render a Mermaid diagram.
#[derive(Debug, Clone)]
pub struct GenerateMermaidRequest {
    /// Raw Mermaid diagram markdown or text
    pub code: String,
    /// Theme for the diagram (e.g. default, dark, forest, neutral)
    pub theme: Option<String>,
    /// Target width for rasterized output formats
    pub width: Option<u32>,
    /// Target height for rasterized output formats
    pub height: Option<u32>,
    /// Optional background color hex (e.g. #ffffff). Default is transparent.
    pub background_color: Option<String>,
    /// Output format (svg, png, jpeg, webp). Default is svg.
    pub output_format: Option<String>,
}

// ---------------------------------------------------------------------
// Inline content or file path
// ---------------------------------------------------------------------

/// `text`, once trimmed, begins with `opener`.
pub open spec fn opens_with(text: Seq<char>, opener: char) -> bool {
    trimmed(text).len() > 0 && trimmed(text)[0] == opener
}

/// Whether `text` is inline content rather than a file path: its first
/// non-whitespace character is `opener` (`<` for SVG, `{` for JSON).
pub fn is_inline_content(text: &str, opener: char) -> (r: bool)
    ensures
        r == opens_with(text@, opener),
{
    let v = chars_of(text);
    let b = skip_space(&v, 0);
    proof {
        lemma_skip_space_bounds(v@, 0);
        lemma_trim_end_bounds(v@, v@.len() as int);
        if b < v@.len() {
            lemma_trim_end_not_below(v@, b as int, v@.len() as int);
        }
    }
    b < v.len() && v[b] == opener
}

proof fn lemma_trim_end_not_below(s: Seq<char>, b: int, end: int)
    requires
        0 <= b < end <= s.len(),
        !crate::text::is_white_space(s[b]),
    ensures
        crate::text::trim_end_at(s, end) > b,
    decreases end,
{
    if crate::text::is_white_space(s[end - 1]) {
        lemma_trim_end_not_below(s, b, end - 1);
    }
}

// ---------------------------------------------------------------------
// Defaults
// ---------------------------------------------------------------------

/// The color a spinner is drawn in (`#8b5cf6` unless given).
pub open spec fn spinner_color(req: &GenerateSpinnerRequest) -> Seq<char> {
    match req.color {
        Some(c) => c@,
        None => "#8b5cf6"@,
    }
}

/// The size of a spinner in pixels (60 unless given).
pub open spec fn spinner_size(req: &GenerateSpinnerRequest) -> u32 {
    match req.size {
        Some(s) => s,
        None => 60,
    }
}

/// The spinner SVG a spinner request asks for, and its size in pixels.
pub fn spinner_for_request(req: &GenerateSpinnerRequest) -> (r: (String, u32))
    ensures
        r.1 == spinner_size(req),
        r.0@ == spinner_markup(lowercase(req.spinner_type@), spinner_color(req), r.1 as nat),
{
    let size = match req.size {
        Some(s) => s,
        None => 60,
    };
    let svg = match &req.color {
        Some(c) => spinner_svg(req.spinner_type.as_str(), c.as_str(), size),
        None => spinner_svg(req.spinner_type.as_str(), "#8b5cf6", size),
    };
    (svg, size)
}

/// The output format of a rasterization (png unless given).
pub fn rasterize_format(req: &RasterizeSvgRequest) -> (r: String)
    ensures
        r@ == match req.output_format {
            Some(f) => f@,
            None => "png"@,
        },
{
    match &req.output_format {
        Some(f) => String::from_str(f.as_str()),
        None => String::from_str("png"),
    }
}

/// The output format of a Mermaid rendering: the given or default (svg)
/// format name, trimmed and lowercased.
pub fn mermaid_format(req: &GenerateMermaidRequest) -> (r: String)
    ensures
        r@ == lowercase(
            trimmed(
                match req.output_format {
                    Some(f) => f@,
                    None => "svg"@,
                },
            ),
        ),
{
    let given = match &req.output_format {
        Some(f) => chars_of(f.as_str()),
        None => chars_of("svg"),
    };
    let t = trim_chars(&given);
    let ts = string_from_chars(&t);
    to_lowercase(ts.as_str())
}

/// The number of rounds of an auto-refinement: the requested number (3
/// unless given), at most 5.
pub open spec fn refine_rounds(req: ImproveAutoRefineRequest) -> u32 {
    let m = match req.max_iterations {
        Some(m) => m,
        None => 3,
    };
    if m < 5 {
        m
    } else {
        5
    }
}

/// Image width, image height and number of rounds of an auto-refinement:
/// 512 x 512 unless given, and at most 5 rounds (3 unless given).
pub fn auto_refine_settings(req: &ImproveAutoRefineRequest) -> (r: (u32, u32, u32))
    ensures
        r.0 == match req.width {
            Some(w) => w,
            None => 512,
        },
        r.1 == match req.height {
            Some(h) => h,
            None => 512,
        },
        r.2 == refine_rounds(*req),
{
    let w = match req.width {
        Some(w) => w,
        None => 512,
    };
    let h = match req.height {
        Some(h) => h,
        None => 512,
    };
    let m = match req.max_iterations {
        Some(m) => m,
        None => 3,
    };
    (w, h, if m < 5 { m } else { 5 })
}

// ---------------------------------------------------------------------
// Image processing choices
// ---------------------------------------------------------------------

/// Resampling methods for resizing.
#[derive(Debug, Clone, Copy, PartialEq, Eq, Structural)]
pub enum ResizeMethod {
    Nearest,
    Bilinear,
    Lanczos3,
}

/// The resampling method a lowercased name selects (bilinear for unknown
/// names).
pub open spec fn resize_method_named(l: Seq<char>) -> ResizeMethod {
    if l == "nearest"@ {
        ResizeMethod::Nearest
    } else if l == "lanczos3"@ {
        ResizeMethod::Lanczos3
    } else {
        ResizeMethod::Bilinear
    }
}

/// Each resampling method name and the method it names.
pub open spec fn resize_method_table() -> Seq<(Seq<char>, ResizeMethod)> {
    seq![
        ("nearest"@, ResizeMethod::Nearest),
        ("bilinear"@, ResizeMethod::Bilinear),
        ("lanczos3"@, ResizeMethod::Lanczos3),
    ]
}

/// Every resampling method name of the table selects the method it names.
pub proof fn lemma_resize_name_selects_method(k: int)
    requires
        0 <= k < resize_method_table().len(),
    ensures
        resize_method_named(resize_method_table()[k].0) == resize_method_table()[k].1,
{
    reveal_strlit("bilinear");
    reveal_strlit("lanczos3");
    reveal_strlit("nearest");
    assert("bilinear"@.len() == 8 && "bilinear"@[0] == 'b' && "bilinear"@[1] == 'i' && "bilinear"@[2] == 'l' && "bilinear"@[3] == 'i' && "bilinear"@[4] == 'n' && "bilinear"@[5] == 'e' && "bilinear"@[6] == 'a' && "bilinear"@[7] == 'r');
    assert("lanczos3"@.len() == 8 && "lanczos3"@[0] == 'l' && "lanczos3"@[1] == 'a' && "lanczos3"@[2] == 'n' && "lanczos3"@[3] == 'c' && "lanczos3"@[4] == 'z' && "lanczos3"@[5] == 'o' && "lanczos3"@[6] == 's' && "lanczos3"@[7] == '3');
    assert("nearest"@.len() == 7 && "nearest"@[0] == 'n' && "nearest"@[1] == 'e' && "nearest"@[2] == 'a' && "nearest"@[3] == 'r' && "nearest"@[4] == 'e' && "nearest"@[5] == 's' && "nearest"@[6] == 't');
    if k == 0 {
        assert(resize_method_table()[k] == ("nearest"@, ResizeMethod::Nearest));
        assert(resize_method_named("nearest"@) == ResizeMethod::Nearest);
    } else if k == 1 {
        assert(resize_method_table()[k] == ("bilinear"@, ResizeMethod::Bilinear));
        assert(resize_method_named("bilinear"@) == ResizeMethod::Bilinear);
    } else if k == 2 {
        assert(resize_method_table()[k] == ("lanczos3"@, ResizeMethod::Lanczos3));
        assert(resize_method_named("lanczos3"@) == ResizeMethod::Lanczos3);
    }
}

/// The resampling method of a resize request (bilinear unless named).
pub fn resize_method(req: &ImageResizeRequest) -> (r: ResizeMethod)
    ensures
        r == resize_method_named(
            lowercase(
                match req.algorithm {
                    Some(a) => a@,
                    None => "bilinear"@,
                },
            ),
        ),
{
    let l = match &req.algorithm {
        Some(a) => to_lowercase(a.as_str()),
        None => to_lowercase("bilinear"),
    };
    if str_eq(l.as_str(), "nearest") {
        ResizeMethod::Nearest
    } else if str_eq(l.as_str(), "lanczos3") {
        ResizeMethod::Lanczos3
    } else {
        ResizeMethod::Bilinear
    }
}

/// `s` without its leading `.` characters.
pub open spec fn without_leading_dots(s: Seq<char>) -> Seq<char>
    decreases s.len(),
{
    if s.len() > 0 && s[0] == '.' {
        without_leading_dots(s.drop_first())
    } else {
        s
    }
}

/// The file extension of an image conversion: the format name without
/// leading dots, lowercased.
pub fn convert_extension(req: &ImageConvertRequest) -> (r: String)
    ensures
        r@ == lowercase(without_leading_dots(req.format@)),
{
    let v = chars_of(req.format.as_str());
    let mut i: usize = 0;
    assert(v@.subrange(0, v@.len() as int) =~= v@);
    while i < v.len() && v[i] == '.'
        invariant
            i <= v@.len(),
            without_leading_dots(v@) == without_leading_dots(v@.subrange(i as int, v@.len() as int)),
        decreases v@.len() - i,
    {
        assert(v@.subrange(i as int, v@.len() as int).drop_first() =~= v@.subrange(i + 1, v@.len() as int));
        i = i + 1;
    }
    let rest = crate::text::slice_chars(&v, i, v.len());
    let s = string_from_chars(&rest);
    to_lowercase(s.as_str())
}

/// The file extension processed images are written with, for a
/// lowercased format name (png for unknown names).
pub open spec fn output_extension_named(l: Seq<char>) -> Seq<char> {
    if l == "jpeg"@ || l == "jpg"@ {
        "jpg"@
    } else if l == "webp"@ {
        "webp"@
    } else if l == "avif"@ {
        "avif"@
    } else {
        "png"@
    }
}

/// Each output format name and the file extension it is written with.
pub open spec fn output_extension_table() -> Seq<(Seq<char>, Seq<char>)> {
    seq![
        ("png"@, "png"@),
        ("jpeg"@, "jpg"@),
        ("jpg"@, "jpg"@),
        ("webp"@, "webp"@),
        ("avif"@, "avif"@),
    ]
}

/// Every output format name of the table selects its own file extension.
pub proof fn lemma_format_name_selects_extension(k: int)
    requires
        0 <= k < output_extension_table().len(),
    ensures
        output_extension_named(output_extension_table()[k].0) == output_extension_table()[k].1,
{
    reveal_strlit("avif");
    reveal_strlit("jpeg");
    reveal_strlit("jpg");
    reveal_strlit("png");
    reveal_strlit("webp");
    assert("avif"@.len() == 4 && "avif"@[0] == 'a' && "avif"@[1] == 'v' && "avif"@[2] == 'i' && "avif"@[3] == 'f');
    assert("jpeg"@.len() == 4 && "jpeg"@[0] == 'j' && "jpeg"@[1] == 'p' && "jpeg"@[2] == 'e' && "jpeg"@[3] == 'g');
    assert("jpg"@.len() == 3 && "jpg"@[0] == 'j' && "jpg"@[1] == 'p' && "jpg"@[2] == 'g');
    assert("png"@.len() == 3 && "png"@[0] == 'p' && "png"@[1] == 'n' && "png"@[2] == 'g');
    assert("webp"@.len() == 4 && "webp"@[0] == 'w' && "webp"@[1] == 'e' && "webp"@[2] == 'b' && "webp"@[3] == 'p');
    if k == 0 {
        assert(output_extension_table()[k] == ("png"@, "png"@));
        assert(output_extension_named("png"@) == "png"@);
    } else if k == 1 {
        assert(output_extension_table()[k] == ("jpeg"@, "jpg"@));
        assert(output_extension_named("jpeg"@) == "jpg"@);
    } else if k == 2 {
        assert(output_extension_table()[k] == ("jpg"@, "jpg"@));
        assert(output_extension_named("jpg"@) == "jpg"@);
    } else if k == 3 {
        assert(output_extension_table()[k] == ("webp"@, "webp"@));
        assert(output_extension_named("webp"@) == "webp"@);
    } else if k == 4 {
        assert(output_extension_table()[k] == ("avif"@, "avif"@));
        assert(output_extension_named("avif"@) == "avif"@);
    }
}

/// The file extension processed images are written with for `format`
/// (compared without regard to case).
pub fn output_extension(format: &str) -> (r: &'static str)
    ensures
        r@ == output_extension_named(lowercase(format@)),
{
    let l = to_lowercase(format);
    let ls = l.as_str();
    if str_eq(ls, "jpeg") || str_eq(ls, "jpg") {
        "jpg"
    } else if str_eq(ls, "webp") {
        "webp"
    } else if str_eq(ls, "avif") {
        "avif"
    } else {
        "png"
    }
}

/// The image filters a filter request can name.
#[derive(Debug, Clone, Copy, PartialEq, Eq, Structural)]
pub enum FilterKind {
    Grayscale,
    Invert,
    Brightness,
    Contrast,
    Saturation,
    HueRotate,
    Sepia,
    Threshold,
    GaussianBlur,
    BoxBlur,
    Sharpen,
    UnsharpMask,
}

/// The filter a lowercased filter name selects, if any.
pub open spec fn filter_named(l: Seq<char>) -> Option<FilterKind> {
    if l == "grayscale"@ {
        Some(FilterKind::Grayscale)
    } else if l == "invert"@ {
        Some(FilterKind::Invert)
    } else if l == "brightness"@ {
        Some(FilterKind::Brightness)
    } else if l == "contrast"@ {
        Some(FilterKind::Contrast)
    } else if l == "saturation"@ {
        Some(FilterKind::Saturation)
    } else if l == "hue_rotate"@ || l == "huerotate"@ {
        Some(FilterKind::HueRotate)
    } else if l == "sepia"@ {
        Some(FilterKind::Sepia)
    } else if l == "threshold"@ {
        Some(FilterKind::Threshold)
    } else if l == "blur"@ || l == "gaussian_blur"@ {
        Some(FilterKind::GaussianBlur)
    } else if l == "box_blur"@ {
        Some(FilterKind::BoxBlur)
    } else if l == "sharpen"@ {
        Some(FilterKind::Sharpen)
    } else if l == "unsharp_mask"@ || l == "unsharp"@ {
        Some(FilterKind::UnsharpMask)
    } else {
        None
    }
}

/// Each filter name and the filter it names.
pub open spec fn filter_table() -> Seq<(Seq<char>, Option<FilterKind>)> {
    seq![
        ("grayscale"@, Some(FilterKind::Grayscale)),
        ("invert"@, Some(FilterKind::Invert)),
        ("brightness"@, Some(FilterKind::Brightness)),
        ("contrast"@, Some(FilterKind::Contrast)),
        ("saturation"@, Some(FilterKind::Saturation)),
        ("hue_rotate"@, Some(FilterKind::HueRotate)),
        ("huerotate"@, Some(FilterKind::HueRotate)),
        ("sepia"@, Some(FilterKind::Sepia)),
        ("threshold"@, Some(FilterKind::Threshold)),
        ("blur"@, Some(FilterKind::GaussianBlur)),
        ("gaussian_blur"@, Some(FilterKind::GaussianBlur)),
        ("box_blur"@, Some(FilterKind::BoxBlur)),
        ("sharpen"@, Some(FilterKind::Sharpen)),
        ("unsharp_mask"@, Some(FilterKind::UnsharpMask)),
        ("unsharp"@, Some(FilterKind::UnsharpMask)),
    ]
}

/// Every filter name of the table selects the filter it names.
pub proof fn lemma_filter_name_selects_filter(k: int)
    requires
        0 <= k < filter_table().len(),
    ensures
        filter_named(filter_table()[k].0) == filter_table()[k].1,
{
    reveal_strlit("blur");
    reveal_strlit("box_blur");
    reveal_strlit("brightness");
    reveal_strlit("contrast");
    reveal_strlit("gaussian_blur");
    reveal_strlit("grayscale");
    reveal_strlit("hue_rotate");
    reveal_strlit("huerotate");
    reveal_strlit("invert");
    reveal_strlit("saturation");
    reveal_strlit("sepia");
    reveal_strlit("sharpen");
    reveal_strlit("threshold");
    reveal_strlit("unsharp");
    reveal_strlit("unsharp_mask");
    assert("blur"@.len() == 4 && "blur"@[0] == 'b' && "blur"@[1] == 'l' && "blur"@[2] == 'u' && "blur"@[3] == 'r');
    assert("box_blur"@.len() == 8 && "box_blur"@[0] == 'b' && "box_blur"@[1] == 'o' && "box_blur"@[2] == 'x' && "box_blur"@[3] == '_' && "box_blur"@[4] == 'b' && "box_blur"@[5] == 'l' && "box_blur"@[6] == 'u' && "box_blur"@[7] == 'r');
    assert("brightness"@.len() == 10 && "brightness"@[0] == 'b' && "brightness"@[1] == 'r' && "brightness"@[2] == 'i' && "brightness"@[3] == 'g' && "brightness"@[4] == 'h' && "brightness"@[5] == 't' && "brightness"@[6] == 'n' && "brightness"@[7] == 'e' && "brightness"@[8] == 's' && "brightness"@[9] == 's');
    assert("contrast"@.len() == 8 && "contrast"@[0] == 'c' && "contrast"@[1] == 'o' && "contrast"@[2] == 'n' && "contrast"@[3] == 't' && "contrast"@[4] == 'r' && "contrast"@[5] == 'a' && "contrast"@[6] == 's' && "contrast"@[7] == 't');
    assert("gaussian_blur"@.len() == 13 && "gaussian_blur"@[0] == 'g' && "gaussian_blur"@[1] == 'a' && "gaussian_blur"@[2] == 'u' && "gaussian_blur"@[3] == 's' && "gaussian_blur"@[4] == 's' && "gaussian_blur"@[5] == 'i' && "gaussian_blur"@[6] == 'a' && "gaussian_blur"@[7] == 'n' && "gaussian_blur"@[8] == '_' && "gaussian_blur"@[9] == 'b' && "gaussian_blur"@[10] == 'l' && "gaussian_blur"@[11] == 'u' && "gaussian_blur"@[12] == 'r');
    assert("grayscale"@.len() == 9 && "grayscale"@[0] == 'g' && "grayscale"@[1] == 'r' && "grayscale"@[2] == 'a' && "grayscale"@[3] == 'y' && "grayscale"@[4] == 's' && "grayscale"@[5] == 'c' && "grayscale"@[6] == 'a' && "grayscale"@[7] == 'l' && "grayscale"@[8] == 'e');
    assert("hue_rotate"@.len() == 10 && "hue_rotate"@[0] == 'h' && "hue_rotate"@[1] == 'u' && "hue_rotate"@[2] == 'e' && "hue_rotate"@[3] == '_' && "hue_rotate"@[4] == 'r' && "hue_rotate"@[5] == 'o' && "hue_rotate"@[6] == 't' && "hue_rotate"@[7] == 'a' && "hue_rotate"@[8] == 't' && "hue_rotate"@[9] == 'e');
    assert("huerotate"@.len() == 9 && "huerotate"@[0] == 'h' && "huerotate"@[1] == 'u' && "huerotate"@[2] == 'e' && "huerotate"@[3] == 'r' && "huerotate"@[4] == 'o' && "huerotate"@[5] == 't' && "huerotate"@[6] == 'a' && "huerotate"@[7] == 't' && "huerotate"@[8] == 'e');
    assert("invert"@.len() == 6 && "invert"@[0] == 'i' && "invert"@[1] == 'n' && "invert"@[2] == 'v' && "invert"@[3] == 'e' && "invert"@[4] == 'r' && "invert"@[5] == 't');
    assert("saturation"@.len() == 10 && "saturation"@[0] == 's' && "saturation"@[1] == 'a' && "saturation"@[2] == 't' && "saturation"@[3] == 'u' && "saturation"@[4] == 'r' && "saturation"@[5] == 'a' && "saturation"@[6] == 't' && "saturation"@[7] == 'i' && "saturation"@[8] == 'o' && "saturation"@[9] == 'n');
    assert("sepia"@.len() == 5 && "sepia"@[0] == 's' && "sepia"@[1] == 'e' && "sepia"@[2] == 'p' && "sepia"@[3] == 'i' && "sepia"@[4] == 'a');
    assert("sharpen"@.len() == 7 && "sharpen"@[0] == 's' && "sharpen"@[1] == 'h' && "sharpen"@[2] == 'a' && "sharpen"@[3] == 'r' && "sharpen"@[4] == 'p' && "sharpen"@[5] == 'e' && "sharpen"@[6] == 'n');
    assert("threshold"@.len() == 9 && "threshold"@[0] == 't' && "threshold"@[1] == 'h' && "threshold"@[2] == 'r' && "threshold"@[3] == 'e' && "threshold"@[4] == 's' && "threshold"@[5] == 'h' && "threshold"@[6] == 'o' && "threshold"@[7] == 'l' && "threshold"@[8] == 'd');
    assert("unsharp"@.len() == 7 && "unsharp"@[0] == 'u' && "unsharp"@[1] == 'n' && "unsharp"@[2] == 's' && "unsharp"@[3] == 'h' && "unsharp"@[4] == 'a' && "unsharp"@[5] == 'r' && "unsharp"@[6] == 'p');
    assert("unsharp_mask"@.len() == 12 && "unsharp_mask"@[0] == 'u' && "unsharp_mask"@[1] == 'n' && "unsharp_mask"@[2] == 's' && "unsharp_mask"@[3] == 'h' && "unsharp_mask"@[4] == 'a' && "unsharp_mask"@[5] == 'r' && "unsharp_mask"@[6] == 'p' && "unsharp_mask"@[7] == '_' && "unsharp_mask"@[8] == 'm' && "unsharp_mask"@[9] == 'a' && "unsharp_mask"@[10] == 's' && "unsharp_mask"@[11] == 'k');
    if k == 0 {
        assert(filter_table()[k] == ("grayscale"@, Some(FilterKind::Grayscale)));
        assert(filter_named("grayscale"@) == Some(FilterKind::Grayscale));
    } else if k == 1 {
        assert(filter_table()[k] == ("invert"@, Some(FilterKind::Invert)));
        assert(filter_named("invert"@) == Some(FilterKind::Invert));
    } else if k == 2 {
        assert(filter_table()[k] == ("brightness"@, Some(FilterKind::Brightness)));
        assert(filter_named("brightness"@) == Some(FilterKind::Brightness));
    } else if k == 3 {
        assert(filter_table()[k] == ("contrast"@, Some(FilterKind::Contrast)));
        assert(filter_named("contrast"@) == Some(FilterKind::Contrast));
    } else if k == 4 {
        assert(filter_table()[k] == ("saturation"@, Some(FilterKind::Saturation)));
        assert(filter_named("saturation"@) == Some(FilterKind::Saturation));
    } else if k == 5 {
        assert(filter_table()[k] == ("hue_rotate"@, Some(FilterKind::HueRotate)));
        assert(filter_named("hue_rotate"@) == Some(FilterKind::HueRotate));
    } else if k == 6 {
        assert(filter_table()[k] == ("huerotate"@, Some(FilterKind::HueRotate)));
        assert(filter_named("huerotate"@) == Some(FilterKind::HueRotate));
    } else if k == 7 {
        assert(filter_table()[k] == ("sepia"@, Some(FilterKind::Sepia)));
        assert(filter_named("sepia"@) == Some(FilterKind::Sepia));
    } else if k == 8 {
        assert(filter_table()[k] == ("threshold"@, Some(FilterKind::Threshold)));
        assert(filter_named("threshold"@) == Some(FilterKind::Threshold));
    } else if k == 9 {
        assert(filter_table()[k] == ("blur"@, Some(FilterKind::GaussianBlur)));
        assert(filter_named("blur"@) == Some(FilterKind::GaussianBlur));
    } else if k == 10 {
        assert(filter_table()[k] == ("gaussian_blur"@, Some(FilterKind::GaussianBlur)));
        assert(filter_named("gaussian_blur"@) == Some(FilterKind::GaussianBlur));
    } else if k == 11 {
        assert(filter_table()[k] == ("box_blur"@, Some(FilterKind::BoxBlur)));
        assert(filter_named("box_blur"@) == Some(FilterKind::BoxBlur));
    } else if k == 12 {
        assert(filter_table()[k] == ("sharpen"@, Some(FilterKind::Sharpen)));
        assert(filter_named("sharpen"@) == Some(FilterKind::Sharpen));
    } else if k == 13 {
        assert(filter_table()[k] == ("unsharp_mask"@, Some(FilterKind::UnsharpMask)));
        assert(filter_named("unsharp_mask"@) == Some(FilterKind::UnsharpMask));
    } else if k == 14 {
        assert(filter_table()[k] == ("unsharp"@, Some(FilterKind::UnsharpMask)));
        assert(filter_named("unsharp"@) == Some(FilterKind::UnsharpMask));
    }
}

/// The filter named by an already lowercased name.
pub fn filter_from_lowercase(l: &str) -> (r: Option<FilterKind>)
    ensures
        r == filter_named(l@),
{
    if str_eq(l, "grayscale") {
        Some(FilterKind::Grayscale)
    } else if str_eq(l, "invert") {
        Some(FilterKind::Invert)
    } else if str_eq(l, "brightness") {
        Some(FilterKind::Brightness)
    } else if str_eq(l, "contrast") {
        Some(FilterKind::Contrast)
    } else if str_eq(l, "saturation") {
        Some(FilterKind::Saturation)
    } else if str_eq(l, "hue_rotate") || str_eq(l, "huerotate") {
        Some(FilterKind::HueRotate)
    } else if str_eq(l, "sepia") {
        Some(FilterKind::Sepia)
    } else if str_eq(l, "threshold") {
        Some(FilterKind::Threshold)
    } else if str_eq(l, "blur") || str_eq(l, "gaussian_blur") {
        Some(FilterKind::GaussianBlur)
    } else if str_eq(l, "box_blur") {
        Some(FilterKind::BoxBlur)
    } else if str_eq(l, "sharpen") {
        Some(FilterKind::Sharpen)
    } else if str_eq(l, "unsharp_mask") || str_eq(l, "unsharp") {
        Some(FilterKind::UnsharpMask)
    } else {
        None
    }
}

/// The filter named by `filter_type` (compared without regard to case);
/// unknown names are refused with a message naming them as given.
pub fn parse_filter_kind(filter_type: &str) -> (r: Result<FilterKind, String>)
    ensures
        match filter_named(lowercase(filter_type@)) {
            Some(k) => r == Ok::<FilterKind, String>(k),
            None => r matches Err(m) && m@ == "Unsupported filter type: "@ + filter_type@,
        },
{
    let l = to_lowercase(filter_type);
    match filter_from_lowercase(l.as_str()) {
        Some(k) => Ok(k),
        None => {
            let mut m = String::from_str("Unsupported filter type: ");
            push_str(&mut m, filter_type);
            Err(m)
        },
    }
}

/// The geometric transforms a transform request can name.
#[derive(Debug, Clone, Copy, PartialEq, Eq, Structural)]
pub enum TransformKind {
    Rotate,
    FlipHorizontal,
    FlipVertical,
}

/// The transform a lowercased transform name selects, if any.
pub open spec fn transform_named(l: Seq<char>) -> Option<TransformKind> {
    if l == "rotate"@ {
        Some(TransformKind::Rotate)
    } else if l == "flip_horizontal"@ || l == "fliph"@ {
        Some(TransformKind::FlipHorizontal)
    } else if l == "flip_vertical"@ || l == "flipv"@ {
        Some(TransformKind::FlipVertical)
    } else {
        None
    }
}

/// Each transform name and the transform it names.
pub open spec fn transform_table() -> Seq<(Seq<char>, Option<TransformKind>)> {
    seq![
        ("rotate"@, Some(TransformKind::Rotate)),
        ("flip_horizontal"@, Some(TransformKind::FlipHorizontal)),
        ("fliph"@, Some(TransformKind::FlipHorizontal)),
        ("flip_vertical"@, Some(TransformKind::FlipVertical)),
        ("flipv"@, Some(TransformKind::FlipVertical)),
    ]
}

/// Every transform name of the table selects the transform it names.
pub proof fn lemma_transform_name_selects_transform(k: int)
    requires
        0 <= k < transform_table().len(),
    ensures
        transform_named(transform_table()[k].0) == transform_table()[k].1,
{
    reveal_strlit("flip_horizontal");
    reveal_strlit("flip_vertical");
    reveal_strlit("fliph");
    reveal_strlit("flipv");
    reveal_strlit("rotate");
    assert("flip_horizontal"@.len() == 15 && "flip_horizontal"@[0] == 'f' && "flip_horizontal"@[1] == 'l' && "flip_horizontal"@[2] == 'i' && "flip_horizontal"@[3] == 'p' && "flip_horizontal"@[4] == '_' && "flip_horizontal"@[5] == 'h' && "flip_horizontal"@[6] == 'o' && "flip_horizontal"@[7] == 'r' && "flip_horizontal"@[8] == 'i' && "flip_horizontal"@[9] == 'z' && "flip_horizontal"@[10] == 'o' && "flip_horizontal"@[11] == 'n' && "flip_horizontal"@[12] == 't' && "flip_horizontal"@[13] == 'a' && "flip_horizontal"@[14] == 'l');
    assert("flip_vertical"@.len() == 13 && "flip_vertical"@[0] == 'f' && "flip_vertical"@[1] == 'l' && "flip_vertical"@[2] == 'i' && "flip_vertical"@[3] == 'p' && "flip_vertical"@[4] == '_' && "flip_vertical"@[5] == 'v' && "flip_vertical"@[6] == 'e' && "flip_vertical"@[7] == 'r' && "flip_vertical"@[8] == 't' && "flip_vertical"@[9] == 'i' && "flip_vertical"@[10] == 'c' && "flip_vertical"@[11] == 'a' && "flip_vertical"@[12] == 'l');
    assert("fliph"@.len() == 5 && "fliph"@[0] == 'f' && "fliph"@[1] == 'l' && "fliph"@[2] == 'i' && "fliph"@[3] == 'p' && "fliph"@[4] == 'h');
    assert("flipv"@.len() == 5 && "flipv"@[0] == 'f' && "flipv"@[1] == 'l' && "flipv"@[2] == 'i' && "flipv"@[3] == 'p' && "flipv"@[4] == 'v');
    assert("rotate"@.len() == 6 && "rotate"@[0] == 'r' && "rotate"@[1] == 'o' && "rotate"@[2] == 't' && "rotate"@[3] == 'a' && "rotate"@[4] == 't' && "rotate"@[5] == 'e');
    if k == 0 {
        assert(transform_table()[k] == ("rotate"@, Some(TransformKind::Rotate)));
        assert(transform_named("rotate"@) == Some(TransformKind::Rotate));
    } else if k == 1 {
        assert(transform_table()[k] == ("flip_horizontal"@, Some(TransformKind::FlipHorizontal)));
        assert(transform_named("flip_horizontal"@) == Some(TransformKind::FlipHorizontal));
    } else if k == 2 {
        assert(transform_table()[k] == ("fliph"@, Some(TransformKind::FlipHorizontal)));
        assert(transform_named("fliph"@) == Some(TransformKind::FlipHorizontal));
    } else if k == 3 {
        assert(transform_table()[k] == ("flip_vertical"@, Some(TransformKind::FlipVertical)));
        assert(transform_named("flip_vertical"@) == Some(TransformKind::FlipVertical));
    } else if k == 4 {
        assert(transform_table()[k] == ("flipv"@, Some(TransformKind::FlipVertical)));
        assert(transform_named("flipv"@) == Some(TransformKind::FlipVertical));
    }
}

/// The transform named by `transform_type` (compared without regard to
/// case); unknown names are refused with a message naming them as given.
pub fn parse_transform_kind(transform_type: &str) -> (r: Result<TransformKind, String>)
    ensures
        match transform_named(lowercase(transform_type@)) {
            Some(k) => r == Ok::<TransformKind, String>(k),
            None => r matches Err(m) && m@ == "Unsupported transform type: "@ + transform_type@,
        },
{
    let l = to_lowercase(transform_type);
    let ls = l.as_str();
    if str_eq(ls, "rotate") {
        Ok(TransformKind::Rotate)
    } else if str_eq(ls, "flip_horizontal") || str_eq(ls, "fliph") {
        Ok(TransformKind::FlipHorizontal)
    } else if str_eq(ls, "flip_vertical") || str_eq(ls, "flipv") {
        Ok(TransformKind::FlipVertical)
    } else {
        let mut m = String::from_str("Unsupported transform type: ");
        push_str(&mut m, transform_type);
        Err(m)
    }
}

// ---------------------------------------------------------------------
// Video templates
// ---------------------------------------------------------------------

/// The video templates.
#[derive(Debug, Clone, Copy, PartialEq, Eq, Structural)]
pub enum TemplateKind {
    Slideshow,
    TextExplainer,
    /// Any other name: a single titled scene.
    Other,
}

/// The template a lowercased template name selects.
pub open spec fn template_named(l: Seq<char>) -> TemplateKind {
    if l == "slideshow"@ {
        TemplateKind::Slideshow
    } else if l == "text_explainer"@ {
        TemplateKind::TextExplainer
    } else {
        TemplateKind::Other
    }
}

/// Each template name and the template it names.
pub open spec fn template_table() -> Seq<(Seq<char>, TemplateKind)> {
    seq![
        ("slideshow"@, TemplateKind::Slideshow),
        ("text_explainer"@, TemplateKind::TextExplainer),
    ]
}

/// Every template name of the table selects the template it names.
pub proof fn lemma_template_name_selects_template(k: int)
    requires
        0 <= k < template_table().len(),
    ensures
        template_named(template_table()[k].0) == template_table()[k].1,
{
    reveal_strlit("slideshow");
    reveal_strlit("text_explainer");
    assert("slideshow"@.len() == 9 && "slideshow"@[0] == 's' && "slideshow"@[1] == 'l' && "slideshow"@[2] == 'i' && "slideshow"@[3] == 'd' && "slideshow"@[4] == 'e' && "slideshow"@[5] == 's' && "slideshow"@[6] == 'h' && "slideshow"@[7] == 'o' && "slideshow"@[8] == 'w');
    assert("text_explainer"@.len() == 14 && "text_explainer"@[0] == 't' && "text_explainer"@[1] == 'e' && "text_explainer"@[2] == 'x' && "text_explainer"@[3] == 't' && "text_explainer"@[4] == '_' && "text_explainer"@[5] == 'e' && "text_explainer"@[6] == 'x' && "text_explainer"@[7] == 'p' && "text_explainer"@[8] == 'l' && "text_explainer"@[9] == 'a' && "text_explainer"@[10] == 'i' && "text_explainer"@[11] == 'n' && "text_explainer"@[12] == 'e' && "text_explainer"@[13] == 'r');
    if k == 0 {
        assert(template_table()[k] == ("slideshow"@, TemplateKind::Slideshow));
        assert(template_named("slideshow"@) == TemplateKind::Slideshow);
    } else if k == 1 {
        assert(template_table()[k] == ("text_explainer"@, TemplateKind::TextExplainer));
        assert(template_named("text_explainer"@) == TemplateKind::TextExplainer);
    }
}

/// The template named by `name` (compared without regard to case).
pub fn template_kind(name: &str) -> (r: TemplateKind)
    ensures
        r == template_named(lowercase(name@)),
{
    let l = to_lowercase(name);
    if str_eq(l.as_str(), "slideshow") {
        TemplateKind::Slideshow
    } else if str_eq(l.as_str(), "text_explainer") {
        TemplateKind::TextExplainer
    } else {
        TemplateKind::Other
    }
}

/// An identifier made of a prefix and a number, such as `slide_3`.
pub fn numbered_id(prefix: &str, n: u64) -> (r: String)
    ensures
        r@ == prefix@ + decimal(n as nat),
{
    let mut r = String::from_str(prefix);
    push_decimal(&mut r, n);
    r
}

/// The text of one bullet line of an explainer: a bullet sign, a space
/// and the text.
pub fn bullet_line(text: &str) -> (r: String)
    ensures
        r@ == "• "@ + text@,
{
    let mut r = String::from_str("• ");
    push_str(&mut r, text);
    r
}

/// The caption of a scene made from an unknown template name.
pub fn template_caption(template_name: &str) -> (r: String)
    ensures
        r@ == "Template: "@ + template_name@,
{
    let mut r = String::from_str("Template: ");
    push_str(&mut r, template_name);
    r
}

/// A line of text on a slide of the text-explainer template, at pixel
/// position `(x, y)`; `y` is wide enough for any number of bullets.
pub struct SlideText {
    pub content: String,
    pub x: u32,
    pub y: u128,
    /// The title line, in the large bold style; otherwise a bullet line.
    pub is_title: bool,
}

/// The title line of every explainer slide: centred across the frame, 150
/// pixels from the top.
pub open spec fn is_title_line(t: SlideText, title: Seq<char>, width: u32) -> bool {
    &&& t.content@ == title
    &&& t.x == width / 2
    &&& t.y == 150
    &&& t.is_title
}

/// Bullet line `j` of an explainer slide: 200 pixels from the left, one
/// row of 80 pixels below the previous bullet, the first 300 pixels from
/// the top.
pub open spec fn is_bullet_line(t: SlideText, bullet: Seq<char>, j: int) -> bool {
    &&& t.content@ == "• "@ + bullet
    &&& t.x == 200
    &&& t.y == 300 + 80 * j
    &&& !t.is_title
}

/// The lines of the text-explainer slides: a slide with the title alone,
/// then one slide per bullet that shows the title and every bullet up to
/// and including it.
pub fn explainer_slides(title: &str, bullets: &Vec<String>, width: u32) -> (r: Vec<Vec<SlideText>>)
    ensures
        r@.len() == bullets@.len() + 1,
        forall|k: int|
            0 <= k < r@.len() ==> (#[trigger] r@[k])@.len() == k + 1 && is_title_line(
                r@[k]@[0],
                title@,
                width,
            ),
        forall|k: int, j: int|
            0 <= k < r@.len() && 1 <= j <= k ==> is_bullet_line(
                #[trigger] r@[k]@[j],
                bullets@[j - 1]@,
                j - 1,
            ),
{
    let mut r: Vec<Vec<SlideText>> = Vec::new();
    let mut k: usize = 0;
    loop
        invariant_except_break
            r@.len() == k,
        invariant
            k <= bullets@.len(),
            r@.len() <= k + 1,
            forall|a: int|
                0 <= a < r@.len() ==> (#[trigger] r@[a])@.len() == a + 1 && is_title_line(
                    r@[a]@[0],
                    title@,
                    width,
                ),
            forall|a: int, j: int|
                0 <= a < r@.len() && 1 <= j <= a ==> is_bullet_line(
                    #[trigger] r@[a]@[j],
                    bullets@[j - 1]@,
                    j - 1,
                ),
        ensures
            r@.len() == bullets@.len() + 1,
            forall|a: int|
                0 <= a < r@.len() ==> (#[trigger] r@[a])@.len() == a + 1 && is_title_line(
                    r@[a]@[0],
                    title@,
                    width,
                ),
            forall|a: int, j: int|
                0 <= a < r@.len() && 1 <= j <= a ==> is_bullet_line(
                    #[trigger] r@[a]@[j],
                    bullets@[j - 1]@,
                    j - 1,
                ),
        decreases bullets@.len() - k,
    {
        let mut slide: Vec<SlideText> = Vec::new();
        slide.push(
            SlideText { content: String::from_str(title), x: width / 2, y: 150, is_title: true },
        );
        let mut j: usize = 0;
        while j < k
            invariant
                k <= bullets@.len(),
                j <= k,
                slide@.len() == j + 1,
                is_title_line(slide@[0], title@, width),
                forall|i: int|
                    1 <= i <= j ==> is_bullet_line(#[trigger] slide@[i], bullets@[i - 1]@, i - 1),
            decreases k - j,
        {
            let line = bullet_line(bullets[j].as_str());
            let y: u128 = 300 + 80 * (j as u128);
            slide.push(SlideText { content: line, x: 200, y, is_title: false });
            j = j + 1;
        }
        r.push(slide);
        if k == bullets.len() {
            break;
        }
        k = k + 1;
    }
    r
}

/// The identifier of slide `i` of a slideshow.
pub open spec fn slide_id(i: nat) -> Seq<char> {
    "slide_"@ + decimal(i)
}

/// The scene transitions of a slideshow of `count` images, as pairs of
/// scene identifiers: each slide leads into the next one.
pub fn slideshow_links(count: usize) -> (r: Vec<(String, String)>)
    ensures
        r@.len() == if count == 0 { 0 } else { count - 1 },
        forall|i: int|
            0 <= i < r@.len() ==> (#[trigger] r@[i]).0@ == slide_id(i as nat) && r@[i].1@
                == slide_id((i + 1) as nat),
{
    let mut r: Vec<(String, String)> = Vec::new();
    let mut i: usize = 1;
    while i < count
        invariant
            1 <= i,
            count > 0 ==> i <= count,
            count <= 1 ==> i == 1,
            r@.len() == i - 1,
            forall|k: int|
                0 <= k < r@.len() ==> (#[trigger] r@[k]).0@ == slide_id(k as nat) && r@[k].1@
                    == slide_id((k + 1) as nat),
        decreases count - i,
    {
        let from = numbered_id("slide_", (i - 1) as u64);
        let to = numbered_id("slide_", i as u64);
        r.push((from, to));
        i = i + 1;
    }
    r
}

} // verus!
