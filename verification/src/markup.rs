//! The markup of scene elements in a frame, as an SVG picture and as an
//! HTML page.
//!
//! Positions, sizes, opacities and angles are real numbers that the
//! renderer computes from the scene's keyframes; they reach these
//! functions already written out as text, exactly as they are to appear
//! in the markup.

use vstd::prelude::*;
use crate::text::{decimal, push_decimal, push_str};
use crate::video::{
    escape_text, escaped, html_text_align, svg_text_anchor, text_align, text_anchor, Anchor,
    ShapeType, TransitionType,
};

verus! {

/// Where and how an element is drawn at one instant.
pub struct Placement {
    /// Opacity, from 0 to 1.
    pub opacity: String,
    /// Horizontal position the element is moved to.
    pub x: String,
    /// Vertical position the element is moved to.
    pub y: String,
    /// Rotation in degrees.
    pub rotation: String,
    /// Horizontal scale factor.
    pub scale_x: String,
    /// Vertical scale factor.
    pub scale_y: String,
}

/// The width and height of an element.
pub struct ElementSize {
    pub width: String,
    pub height: String,
}

// ---------------------------------------------------------------------
// SVG
// ---------------------------------------------------------------------

/// The SVG transform that moves, rotates and scales an element.
pub open spec fn svg_transform(p: Placement) -> Seq<char> {
    "translate("@ + p.x@ + ", "@ + p.y@ + ") rotate("@ + p.rotation@ + ") scale("@ + p.scale_x@
        + ", "@ + p.scale_y@ + ")"@
}

/// The SVG transform of an element that is first moved by `(dx, dy)`, so
/// that it turns and scales about its centre.
pub open spec fn svg_transform_centred(p: Placement, dx: Seq<char>, dy: Seq<char>) -> Seq<char> {
    svg_transform(p) + " translate("@ + dx + ", "@ + dy + ")"@
}

/// A value given by the scene, or the default when it gives none.
pub open spec fn or_default(v: Option<&str>, default: Seq<char>) -> Seq<char> {
    match v {
        Some(s) => s@,
        None => default,
    }
}

/// Shape markup: a rectangle or a circle; the other shapes draw nothing.
/// Fill and stroke default to `none`, corner radius and stroke width to
/// `0`.
pub open spec fn svg_shape_markup(
    shape: ShapeType,
    size: ElementSize,
    radius: Seq<char>,
    corner: Option<&str>,
    fill: Option<&str>,
    stroke: Option<&str>,
    stroke_width: Option<&str>,
    p: Placement,
    dx: Seq<char>,
    dy: Seq<char>,
) -> Seq<char> {
    let paint = " fill=\""@ + or_default(fill, "none"@) + "\" stroke=\""@ + or_default(
        stroke,
        "none"@,
    ) + "\" stroke-width=\""@ + or_default(stroke_width, "0"@) + "\" opacity=\""@ + p.opacity@;
    match shape {
        ShapeType::Rect => "<rect x=\"0\" y=\"0\" width=\""@ + size.width@ + "\" height=\""@
            + size.height@ + "\" rx=\""@ + or_default(corner, "0"@) + "\""@ + paint
            + "\" transform=\""@ + svg_transform_centred(p, dx, dy) + "\"/>"@,
        ShapeType::Circle => "<circle cx=\"0\" cy=\"0\" r=\""@ + radius + "\""@ + paint
            + "\" transform=\""@ + svg_transform(p) + "\"/>"@,
        _ => Seq::empty(),
    }
}

/// Appends the SVG transform of `p` to `s`.
fn push_svg_transform(s: &mut String, p: &Placement)
    ensures
        final(s)@ == old(s)@ + svg_transform(*p),
{
    push_str(s, "translate(");
    push_str(s, p.x.as_str());
    push_str(s, ", ");
    push_str(s, p.y.as_str());
    push_str(s, ") rotate(");
    push_str(s, p.rotation.as_str());
    push_str(s, ") scale(");
    push_str(s, p.scale_x.as_str());
    push_str(s, ", ");
    push_str(s, p.scale_y.as_str());
    push_str(s, ")");
    assert(s@ =~= old(s)@ + svg_transform(*p));
}

/// Appends the centred SVG transform of `p` to `s`.
fn push_svg_transform_centred(s: &mut String, p: &Placement, dx: &str, dy: &str)
    ensures
        final(s)@ == old(s)@ + svg_transform_centred(*p, dx@, dy@),
{
    push_svg_transform(s, p);
    push_str(s, " translate(");
    push_str(s, dx);
    push_str(s, ", ");
    push_str(s, dy);
    push_str(s, ")");
    assert(s@ =~= old(s)@ + svg_transform_centred(*p, dx@, dy@));
}

/// Appends `v`, or `default` when `v` is `None`, to `s`.
fn push_or_default(s: &mut String, v: Option<&str>, default: &str)
    ensures
        final(s)@ == old(s)@ + or_default(v, default@),
{
    match v {
        Some(t) => push_str(s, t),
        None => push_str(s, default),
    }
}

/// The SVG markup of a shape element. `radius` is the circle's radius,
/// `(dx, dy)` moves a rectangle so that it turns about its centre.
pub fn svg_shape(
    shape: ShapeType,
    size: &ElementSize,
    radius: &str,
    corner: Option<&str>,
    fill: Option<&str>,
    stroke: Option<&str>,
    stroke_width: Option<&str>,
    p: &Placement,
    dx: &str,
    dy: &str,
) -> (r: String)
    ensures
        r@ == svg_shape_markup(
            shape,
            *size,
            radius@,
            corner,
            fill,
            stroke,
            stroke_width,
            *p,
            dx@,
            dy@,
        ),
{
    let mut r = String::new();
    match shape {
        ShapeType::Rect => {
            push_str(&mut r, "<rect x=\"0\" y=\"0\" width=\"");
            push_str(&mut r, size.width.as_str());
            push_str(&mut r, "\" height=\"");
            push_str(&mut r, size.height.as_str());
            push_str(&mut r, "\" rx=\"");
            push_or_default(&mut r, corner, "0");
            push_str(&mut r, "\"");
        },
        ShapeType::Circle => {
            push_str(&mut r, "<circle cx=\"0\" cy=\"0\" r=\"");
            push_str(&mut r, radius);
            push_str(&mut r, "\"");
        },
        _ => {
            return r;
        },
    }
    push_str(&mut r, " fill=\"");
    push_or_default(&mut r, fill, "none");
    push_str(&mut r, "\" stroke=\"");
    push_or_default(&mut r, stroke, "none");
    push_str(&mut r, "\" stroke-width=\"");
    push_or_default(&mut r, stroke_width, "0");
    push_str(&mut r, "\" opacity=\"");
    push_str(&mut r, p.opacity.as_str());
    push_str(&mut r, "\" transform=\"");
    match shape {
        ShapeType::Rect => push_svg_transform_centred(&mut r, p, dx, dy),
        _ => push_svg_transform(&mut r, p),
    }
    push_str(&mut r, "\"/>");
    assert(r@ =~= svg_shape_markup(
        shape,
        *size,
        radius@,
        corner,
        fill,
        stroke,
        stroke_width,
        *p,
        dx@,
        dy@,
    ));
    r
}

/// Text markup: the content escaped, anchored as the scene asks.
pub open spec fn svg_text_markup(
    color: Seq<char>,
    font_family: Seq<char>,
    font_size: Seq<char>,
    font_weight: u16,
    anchor: Anchor,
    p: Placement,
    content: Seq<char>,
) -> Seq<char> {
    "<text x=\"0\" y=\"0\" fill=\""@ + color + "\" font-family=\""@ + font_family
        + "\" font-size=\""@ + font_size + "\" font-weight=\""@ + decimal(font_weight as nat)
        + "\" text-anchor=\""@ + svg_text_anchor(anchor) + "\" opacity=\""@ + p.opacity@
        + "\" transform=\""@ + svg_transform(p) + "\">"@ + escaped(content) + "</text>"@
}

/// The SVG markup of a text element.
pub fn svg_text(
    color: &str,
    font_family: &str,
    font_size: &str,
    font_weight: u16,
    anchor: Anchor,
    p: &Placement,
    content: &str,
) -> (r: String)
    ensures
        r@ == svg_text_markup(color@, font_family@, font_size@, font_weight, anchor, *p, content@),
{
    let mut r = String::new();
    push_str(&mut r, "<text x=\"0\" y=\"0\" fill=\"");
    push_str(&mut r, color);
    push_str(&mut r, "\" font-family=\"");
    push_str(&mut r, font_family);
    push_str(&mut r, "\" font-size=\"");
    push_str(&mut r, font_size);
    push_str(&mut r, "\" font-weight=\"");
    push_decimal(&mut r, font_weight as u64);
    push_str(&mut r, "\" text-anchor=\"");
    push_str(&mut r, text_anchor(anchor));
    push_str(&mut r, "\" opacity=\"");
    push_str(&mut r, p.opacity.as_str());
    push_str(&mut r, "\" transform=\"");
    push_svg_transform(&mut r, p);
    push_str(&mut r, "\">");
    let e = escape_text(content);
    push_str(&mut r, e.as_str());
    push_str(&mut r, "</text>");
    assert(r@ =~= svg_text_markup(
        color@,
        font_family@,
        font_size@,
        font_weight,
        anchor,
        *p,
        content@,
    ));
    r
}

/// Image markup: the picture at `src`, turned about its centre.
pub open spec fn svg_image_markup(
    src: Seq<char>,
    size: ElementSize,
    p: Placement,
    dx: Seq<char>,
    dy: Seq<char>,
) -> Seq<char> {
    "<image href=\""@ + src + "\" x=\"0\" y=\"0\" width=\""@ + size.width@ + "\" height=\""@
        + size.height@ + "\" opacity=\""@ + p.opacity@ + "\" transform=\""@
        + svg_transform_centred(p, dx, dy) + "\"/>"@
}

/// The SVG markup of an image element.
pub fn svg_image(src: &str, size: &ElementSize, p: &Placement, dx: &str, dy: &str) -> (r: String)
    ensures
        r@ == svg_image_markup(src@, *size, *p, dx@, dy@),
{
    let mut r = String::new();
    push_str(&mut r, "<image href=\"");
    push_str(&mut r, src);
    push_str(&mut r, "\" x=\"0\" y=\"0\" width=\"");
    push_str(&mut r, size.width.as_str());
    push_str(&mut r, "\" height=\"");
    push_str(&mut r, size.height.as_str());
    push_str(&mut r, "\" opacity=\"");
    push_str(&mut r, p.opacity.as_str());
    push_str(&mut r, "\" transform=\"");
    push_svg_transform_centred(&mut r, p, dx, dy);
    push_str(&mut r, "\"/>");
    assert(r@ =~= svg_image_markup(src@, *size, *p, dx@, dy@));
    r
}

/// Group markup: `content` (inline SVG or a chart) as is, turned about its
/// centre.
pub open spec fn svg_group_markup(p: Placement, dx: Seq<char>, dy: Seq<char>, content: Seq<char>) -> Seq<
    char,
> {
    "<g opacity=\""@ + p.opacity@ + "\" transform=\""@ + svg_transform_centred(p, dx, dy) + "\">"@
        + content + "</g>"@
}

/// The SVG markup of an inline SVG or chart element.
pub fn svg_group(p: &Placement, dx: &str, dy: &str, content: &str) -> (r: String)
    ensures
        r@ == svg_group_markup(*p, dx@, dy@, content@),
{
    let mut r = String::new();
    push_str(&mut r, "<g opacity=\"");
    push_str(&mut r, p.opacity.as_str());
    push_str(&mut r, "\" transform=\"");
    push_svg_transform_centred(&mut r, p, dx, dy);
    push_str(&mut r, "\">");
    push_str(&mut r, content);
    push_str(&mut r, "</g>");
    assert(r@ =~= svg_group_markup(*p, dx@, dy@, content@));
    r
}

// ---------------------------------------------------------------------
// HTML
// ---------------------------------------------------------------------

/// The CSS position of an element: its left and top edges.
pub open spec fn html_position(p: Placement) -> Seq<char> {
    "left: "@ + p.x@ + "px; top: "@ + p.y@ + "px; "@
}

/// The CSS size of an element.
pub open spec fn html_size(size: ElementSize) -> Seq<char> {
    "width: "@ + size.width@ + "px; height: "@ + size.height@ + "px; "@
}

/// The CSS opacity and transform of an element.
pub open spec fn html_look(p: Placement) -> Seq<char> {
    "opacity: "@ + p.opacity@ + "; transform: rotate("@ + p.rotation@ + "deg) scale("@ + p.scale_x@
        + ", "@ + p.scale_y@ + ");"@
}

fn push_html_position(s: &mut String, p: &Placement)
    ensures
        final(s)@ == old(s)@ + html_position(*p),
{
    push_str(s, "left: ");
    push_str(s, p.x.as_str());
    push_str(s, "px; top: ");
    push_str(s, p.y.as_str());
    push_str(s, "px; ");
    assert(s@ =~= old(s)@ + html_position(*p));
}

fn push_html_size(s: &mut String, size: &ElementSize)
    ensures
        final(s)@ == old(s)@ + html_size(*size),
{
    push_str(s, "width: ");
    push_str(s, size.width.as_str());
    push_str(s, "px; height: ");
    push_str(s, size.height.as_str());
    push_str(s, "px; ");
    assert(s@ =~= old(s)@ + html_size(*size));
}

fn push_html_look(s: &mut String, p: &Placement)
    ensures
        final(s)@ == old(s)@ + html_look(*p),
{
    push_str(s, "opacity: ");
    push_str(s, p.opacity.as_str());
    push_str(s, "; transform: rotate(");
    push_str(s, p.rotation.as_str());
    push_str(s, "deg) scale(");
    push_str(s, p.scale_x.as_str());
    push_str(s, ", ");
    push_str(s, p.scale_y.as_str());
    push_str(s, ");");
    assert(s@ =~= old(s)@ + html_look(*p));
}

/// Text markup: the content as is, in the scene's font and colour, aligned
/// after the anchor.
pub open spec fn html_text_markup(
    font_family: Seq<char>,
    font_size: Seq<char>,
    color: Seq<char>,
    font_weight: u16,
    anchor: Anchor,
    p: Placement,
    content: Seq<char>,
) -> Seq<char> {
    "<div class=\"element\" style=\""@ + html_position(p) + html_look(p) + " font-family: "@
        + font_family + "; font-size: "@ + font_size + "px; color: "@ + color + "; font-weight: "@
        + decimal(font_weight as nat) + "; text-align: "@ + html_text_align(anchor) + ";\">"@
        + content + "</div>"@
}

/// The HTML markup of a text element.
pub fn html_text(
    font_family: &str,
    font_size: &str,
    color: &str,
    font_weight: u16,
    anchor: Anchor,
    p: &Placement,
    content: &str,
) -> (r: String)
    ensures
        r@ == html_text_markup(font_family@, font_size@, color@, font_weight, anchor, *p, content@),
{
    let mut r = String::new();
    push_str(&mut r, "<div class=\"element\" style=\"");
    push_html_position(&mut r, p);
    push_html_look(&mut r, p);
    push_str(&mut r, " font-family: ");
    push_str(&mut r, font_family);
    push_str(&mut r, "; font-size: ");
    push_str(&mut r, font_size);
    push_str(&mut r, "px; color: ");
    push_str(&mut r, color);
    push_str(&mut r, "; font-weight: ");
    push_decimal(&mut r, font_weight as u64);
    push_str(&mut r, "; text-align: ");
    push_str(&mut r, text_align(anchor));
    push_str(&mut r, ";\">");
    push_str(&mut r, content);
    push_str(&mut r, "</div>");
    assert(r@ =~= html_text_markup(
        font_family@,
        font_size@,
        color@,
        font_weight,
        anchor,
        *p,
        content@,
    ));
    r
}

/// Image markup: the picture at `src`, covering its box.
pub open spec fn html_image_markup(src: Seq<char>, size: ElementSize, p: Placement) -> Seq<char> {
    "<img class=\"element\" src=\""@ + src + "\" style=\""@ + html_position(p) + html_size(size)
        + html_look(p) + " object-fit: cover;\"/>"@
}

/// The HTML markup of an image element.
pub fn html_image(src: &str, size: &ElementSize, p: &Placement) -> (r: String)
    ensures
        r@ == html_image_markup(src@, *size, *p),
{
    let mut r = String::new();
    push_str(&mut r, "<img class=\"element\" src=\"");
    push_str(&mut r, src);
    push_str(&mut r, "\" style=\"");
    push_html_position(&mut r, p);
    push_html_size(&mut r, size);
    push_html_look(&mut r, p);
    push_str(&mut r, " object-fit: cover;\"/>");
    assert(r@ =~= html_image_markup(src@, *size, *p));
    r
}

/// The CSS corner rounding of a shape: a circle is fully round, a rounded
/// rectangle has the scene's radius (4 pixels when it gives none), other
/// shapes are square.
pub open spec fn html_corners(shape: ShapeType, corner: Option<&str>) -> Seq<char> {
    match shape {
        ShapeType::Circle => "border-radius: 50%;"@,
        ShapeType::RoundedRect => "border-radius: "@ + or_default(corner, "4"@) + "px;"@,
        _ => Seq::empty(),
    }
}

/// Shape markup: a box filled with the fill colour (`transparent` when
/// none is given) and bordered with the stroke (`none`, of width `0`, when
/// none is given).
pub open spec fn html_shape_markup(
    shape: ShapeType,
    size: ElementSize,
    corner: Option<&str>,
    fill: Option<&str>,
    stroke: Option<&str>,
    stroke_width: Option<&str>,
    p: Placement,
) -> Seq<char> {
    "<div class=\"element\" style=\""@ + html_position(p) + html_size(size) + html_look(p)
        + " background-color: "@ + or_default(fill, "transparent"@) + "; border: "@ + or_default(
        stroke_width,
        "0"@,
    ) + "px solid "@ + or_default(stroke, "none"@) + "; "@ + html_corners(shape, corner)
        + "\"></div>"@
}

/// The HTML markup of a shape element.
pub fn html_shape(
    shape: ShapeType,
    size: &ElementSize,
    corner: Option<&str>,
    fill: Option<&str>,
    stroke: Option<&str>,
    stroke_width: Option<&str>,
    p: &Placement,
) -> (r: String)
    ensures
        r@ == html_shape_markup(shape, *size, corner, fill, stroke, stroke_width, *p),
{
    let mut r = String::new();
    push_str(&mut r, "<div class=\"element\" style=\"");
    push_html_position(&mut r, p);
    push_html_size(&mut r, size);
    push_html_look(&mut r, p);
    push_str(&mut r, " background-color: ");
    push_or_default(&mut r, fill, "transparent");
    push_str(&mut r, "; border: ");
    push_or_default(&mut r, stroke_width, "0");
    push_str(&mut r, "px solid ");
    push_or_default(&mut r, stroke, "none");
    push_str(&mut r, "; ");
    match shape {
        ShapeType::Circle => push_str(&mut r, "border-radius: 50%;"),
        ShapeType::RoundedRect => {
            push_str(&mut r, "border-radius: ");
            push_or_default(&mut r, corner, "4");
            push_str(&mut r, "px;");
        },
        _ => {},
    }
    push_str(&mut r, "\"></div>");
    assert(r@ =~= html_shape_markup(shape, *size, corner, fill, stroke, stroke_width, *p));
    r
}

/// The CSS width and height of an inline SVG element, each followed by a
/// space; nothing but the spaces when the scene gives no size.
pub open spec fn html_optional_size(size: Option<&ElementSize>) -> Seq<char> {
    match size {
        Some(s) => "width: "@ + s.width@ + "px; height: "@ + s.height@ + "px; "@,
        None => "  "@,
    }
}

/// Inline SVG markup: the SVG content as is, sized when the scene gives a
/// size.
pub open spec fn html_svg_markup(size: Option<&ElementSize>, p: Placement, content: Seq<char>) -> Seq<
    char,
> {
    "<div class=\"element\" style=\""@ + html_position(p) + html_optional_size(size) + html_look(p)
        + "\">"@ + content + "</div>"@
}

/// The HTML markup of an inline SVG element.
pub fn html_svg(size: Option<&ElementSize>, p: &Placement, content: &str) -> (r: String)
    ensures
        r@ == html_svg_markup(size, *p, content@),
{
    let mut r = String::new();
    push_str(&mut r, "<div class=\"element\" style=\"");
    push_html_position(&mut r, p);
    match size {
        Some(s) => push_html_size(&mut r, s),
        None => push_str(&mut r, "  "),
    }
    push_html_look(&mut r, p);
    push_str(&mut r, "\">");
    push_str(&mut r, content);
    push_str(&mut r, "</div>");
    assert(r@ =~= html_svg_markup(size, *p, content@));
    r
}

/// Block markup: HTML content (or a chart's SVG) as is, in a sized box.
pub open spec fn html_block_markup(size: ElementSize, p: Placement, content: Seq<char>) -> Seq<char> {
    "<div class=\"element\" style=\""@ + html_position(p) + html_size(size) + html_look(p) + "\">"@
        + content + "</div>"@
}

/// The HTML markup of an HTML or chart element.
pub fn html_block(size: &ElementSize, p: &Placement, content: &str) -> (r: String)
    ensures
        r@ == html_block_markup(*size, *p, content@),
{
    let mut r = String::new();
    push_str(&mut r, "<div class=\"element\" style=\"");
    push_html_position(&mut r, p);
    push_html_size(&mut r, size);
    push_html_look(&mut r, p);
    push_str(&mut r, "\">");
    push_str(&mut r, content);
    push_str(&mut r, "</div>");
    assert(r@ =~= html_block_markup(*size, *p, content@));
    r
}

/// Code markup: the code as is, in a dark scrolling panel.
pub open spec fn html_code_markup(
    size: ElementSize,
    p: Placement,
    font_size: Seq<char>,
    content: Seq<char>,
) -> Seq<char> {
    "<pre class=\"element\" style=\""@ + html_position(p) + html_size(size) + html_look(p)
        + " font-size: "@ + font_size
        + "px; overflow: auto; background: #282c34; color: #abb2bf; padding: 10px; border-radius: 4px; margin: 0;\"><code>"@
        + content + "</code></pre>"@
}

/// The HTML markup of a code element.
pub fn html_code(size: &ElementSize, p: &Placement, font_size: &str, content: &str) -> (r: String)
    ensures
        r@ == html_code_markup(*size, *p, font_size@, content@),
{
    let mut r = String::new();
    push_str(&mut r, "<pre class=\"element\" style=\"");
    push_html_position(&mut r, p);
    push_html_size(&mut r, size);
    push_html_look(&mut r, p);
    push_str(&mut r, " font-size: ");
    push_str(&mut r, font_size);
    push_str(
        &mut r,
        "px; overflow: auto; background: #282c34; color: #abb2bf; padding: 10px; border-radius: 4px; margin: 0;\"><code>",
    );
    push_str(&mut r, content);
    push_str(&mut r, "</code></pre>");
    assert(r@ =~= html_code_markup(*size, *p, font_size@, content@));
    r
}

// ---------------------------------------------------------------------
// HTML pages
// ---------------------------------------------------------------------

/// The page of one frame: a body of the frame's size and background,
/// in which elements are placed absolutely, holding `body`.
pub open spec fn html_page(width: nat, height: nat, background: Seq<char>, body: Seq<char>) -> Seq<
    char,
> {
    "<!DOCTYPE html>\n<html>\n<head>\n<style>\n  body {\n    margin: 0;\n    padding: 0;\n    width: "@ + decimal(width) + "px;\n    height: "@ + decimal(height) + "px;\n    background-color: "@ + background + ";\n    overflow: hidden;\n    position: relative;\n    font-family: sans-serif;\n  }\n  .element {\n    position: absolute;\n    transform-origin: center;\n    box-sizing: border-box;\n  }\n</style>\n</head>\n<body>"@ + body
        + "</body></html>"@
}

/// The HTML page of a frame holding `body`.
pub fn scene_html_page(width: u32, height: u32, background: &str, body: &str) -> (r: String)
    ensures
        r@ == html_page(width as nat, height as nat, background@, body@),
{
    let mut r = String::new();
    push_str(&mut r, "<!DOCTYPE html>\n<html>\n<head>\n<style>\n  body {\n    margin: 0;\n    padding: 0;\n    width: ");
    push_decimal(&mut r, width as u64);
    push_str(&mut r, "px;\n    height: ");
    push_decimal(&mut r, height as u64);
    push_str(&mut r, "px;\n    background-color: ");
    push_str(&mut r, background);
    push_str(&mut r, ";\n    overflow: hidden;\n    position: relative;\n    font-family: sans-serif;\n  }\n  .element {\n    position: absolute;\n    transform-origin: center;\n    box-sizing: border-box;\n  }\n</style>\n</head>\n<body>");
    push_str(&mut r, body);
    push_str(&mut r, "</body></html>");
    assert(r@ =~= html_page(width as nat, height as nat, background@, body@));
    r
}

/// A full-frame layer holding one scene's elements during a transition.
pub open spec fn html_layer_markup(style: Seq<char>, content: Seq<char>) -> Seq<char> {
    "<div style=\"position: absolute; width: 100%; height: 100%; "@ + style + "\">"@ + content
        + "</div>"@
}

/// The full-frame layer of a scene during a transition, styled by `style`.
pub fn html_layer(style: &str, content: &str) -> (r: String)
    ensures
        r@ == html_layer_markup(style@, content@),
{
    let mut r = String::new();
    push_str(&mut r, "<div style=\"position: absolute; width: 100%; height: 100%; ");
    push_str(&mut r, style);
    push_str(&mut r, "\">");
    push_str(&mut r, content);
    push_str(&mut r, "</div>");
    assert(r@ =~= html_layer_markup(style@, content@));
    r
}

/// How far the two scenes of a transition have gone, written out: the
/// opacities of the outgoing and incoming scene, and the distances each
/// has moved along the frame's width and height.
pub struct TransitionAmounts {
    pub fade_out: String,
    pub fade_in: String,
    pub shift_x_out: String,
    pub shift_x_in: String,
    pub shift_y_out: String,
    pub shift_y_in: String,
}

/// The CSS styles of the outgoing and incoming layers: slides move both
/// scenes along one axis, the outgoing one in the slide's direction;
/// every other transition fades one scene into the other.
pub open spec fn html_transition_style_pair(t: TransitionType, a: TransitionAmounts) -> (Seq<char>, Seq<
    char,
>) {
    match t {
        TransitionType::SlideLeft => (
            "transform: translateX(-"@ + a.shift_x_out@ + "px);"@,
            "transform: translateX("@ + a.shift_x_in@ + "px);"@,
        ),
        TransitionType::SlideRight => (
            "transform: translateX("@ + a.shift_x_out@ + "px);"@,
            "transform: translateX(-"@ + a.shift_x_in@ + "px);"@,
        ),
        TransitionType::SlideUp => (
            "transform: translateY(-"@ + a.shift_y_out@ + "px);"@,
            "transform: translateY("@ + a.shift_y_in@ + "px);"@,
        ),
        TransitionType::SlideDown => (
            "transform: translateY("@ + a.shift_y_out@ + "px);"@,
            "transform: translateY(-"@ + a.shift_y_in@ + "px);"@,
        ),
        _ => ("opacity: "@ + a.fade_out@ + ";"@, "opacity: "@ + a.fade_in@ + ";"@),
    }
}

fn translate_style(axis: &str, negative: bool, amount: &str) -> (r: String)
    ensures
        r@ == "transform: translate"@ + axis@ + (if negative { "(-"@ } else { "("@ }) + amount@
            + "px);"@,
{
    let mut r = String::new();
    push_str(&mut r, "transform: translate");
    push_str(&mut r, axis);
    if negative {
        push_str(&mut r, "(-");
    } else {
        push_str(&mut r, "(");
    }
    push_str(&mut r, amount);
    push_str(&mut r, "px);");
    r
}

fn opacity_style(amount: &str) -> (r: String)
    ensures
        r@ == "opacity: "@ + amount@ + ";"@,
{
    let mut r = String::new();
    push_str(&mut r, "opacity: ");
    push_str(&mut r, amount);
    push_str(&mut r, ";");
    r
}

/// The CSS styles of the outgoing and incoming scene layers of a
/// transition.
pub fn html_transition_styles(t: TransitionType, a: &TransitionAmounts) -> (r: (String, String))
    ensures
        (r.0@, r.1@) == html_transition_style_pair(t, *a),
{
    proof {
        reveal_strlit("X");
        reveal_strlit("Y");
        reveal_strlit("transform: translate");
        reveal_strlit("transform: translateX(");
        reveal_strlit("transform: translateX(-");
        reveal_strlit("transform: translateY(");
        reveal_strlit("transform: translateY(-");
        reveal_strlit("(");
        reveal_strlit("(-");
    }
    match t {
        TransitionType::SlideLeft => {
            let f = translate_style("X", true, a.shift_x_out.as_str());
            let g = translate_style("X", false, a.shift_x_in.as_str());
            assert(f@ =~= "transform: translateX(-"@ + a.shift_x_out@ + "px);"@);
            assert(g@ =~= "transform: translateX("@ + a.shift_x_in@ + "px);"@);
            (f, g)
        },
        TransitionType::SlideRight => {
            let f = translate_style("X", false, a.shift_x_out.as_str());
            let g = translate_style("X", true, a.shift_x_in.as_str());
            assert(f@ =~= "transform: translateX("@ + a.shift_x_out@ + "px);"@);
            assert(g@ =~= "transform: translateX(-"@ + a.shift_x_in@ + "px);"@);
            (f, g)
        },
        TransitionType::SlideUp => {
            let f = translate_style("Y", true, a.shift_y_out.as_str());
            let g = translate_style("Y", false, a.shift_y_in.as_str());
            assert(f@ =~= "transform: translateY(-"@ + a.shift_y_out@ + "px);"@);
            assert(g@ =~= "transform: translateY("@ + a.shift_y_in@ + "px);"@);
            (f, g)
        },
        TransitionType::SlideDown => {
            let f = translate_style("Y", false, a.shift_y_out.as_str());
            let g = translate_style("Y", true, a.shift_y_in.as_str());
            assert(f@ =~= "transform: translateY("@ + a.shift_y_out@ + "px);"@);
            assert(g@ =~= "transform: translateY(-"@ + a.shift_y_in@ + "px);"@);
            (f, g)
        },
        _ => (opacity_style(a.fade_out.as_str()), opacity_style(a.fade_in.as_str())),
    }
}

} // verus!
