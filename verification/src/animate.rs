//! Animation vocabulary: SMIL and CSS animation settings, presets, and
//! the parsing of preset, easing and timeline-mode names.

use vstd::prelude::*;
use crate::error::OpenMediaError;
use crate::improve::texts;
use crate::text::{
    ascii_lowercase, chars_of, is_ascii_text, lowercase, string_from_chars, str_eq, to_lowercase,
    trim_chars, trimmed,
};

verus! {

/// What an animated attribute does after the animation ends.
#[derive(Debug, Clone, Copy, PartialEq, Eq, Structural)]
pub enum AnimationFill {
    Remove,
    Freeze,
}

/// How many times a SMIL animation repeats.
#[derive(Debug, Clone, Copy, PartialEq, Eq, Structural)]
pub enum RepeatCount {
    Definite(u32),
    Indefinite,
}

/// The kind of transform an `<animateTransform>` animates.
#[derive(Debug, Clone, Copy, PartialEq, Eq, Structural)]
pub enum TransformType {
    Translate,
    Rotate,
    Scale,
    SkewX,
    SkewY,
}

/// How many times a CSS animation runs.
#[derive(Debug, Clone, Copy, PartialEq, Eq, Structural)]
pub enum CssIterationCount {
    Count(u32),
    Infinite,
}

/// The direction of a CSS animation.
#[derive(Debug, Clone, Copy, PartialEq, Eq, Structural)]
pub enum CssDirection {
    Normal,
    Reverse,
    Alternate,
    AlternateReverse,
}

/// The fill mode of a CSS animation.
#[derive(Debug, Clone, Copy, PartialEq, Eq, Structural)]
pub enum CssFillMode {
    /// CSS `none`.
    NoFill,
    Forwards,
    Backwards,
    Both,
}

/// Pre-built animation presets.
#[derive(Debug, Clone, Copy, PartialEq, Eq, Structural)]
pub enum AnimationPreset {
    FadeIn,
    FadeOut,
    SlideInLeft,
    SlideInRight,
    SlideInUp,
    SlideInDown,
    Bounce,
    Pulse,
    Spin,
    Shake,
    Wobble,
    Typewriter,
    DrawPath,
    Morph,
    GradientShift,
    ParallaxScroll,
    Stagger,
}

/// The preset a lowercased preset name selects; unknown names select
/// `FadeIn`.
pub open spec fn preset_named(l: Seq<char>) -> AnimationPreset {
    if l == "fade_in"@ || l == "fadein"@ || l == "fade-in"@ {
        AnimationPreset::FadeIn
    } else if l == "fade_out"@ || l == "fadeout"@ || l == "fade-out"@ {
        AnimationPreset::FadeOut
    } else if l == "slide_in_left"@ || l == "slide-in-left"@ {
        AnimationPreset::SlideInLeft
    } else if l == "slide_in_right"@ || l == "slide-in-right"@ {
        AnimationPreset::SlideInRight
    } else if l == "slide_in_up"@ || l == "slide-in-up"@ {
        AnimationPreset::SlideInUp
    } else if l == "slide_in_down"@ || l == "slide-in-down"@ {
        AnimationPreset::SlideInDown
    } else if l == "bounce"@ {
        AnimationPreset::Bounce
    } else if l == "pulse"@ {
        AnimationPreset::Pulse
    } else if l == "spin"@ {
        AnimationPreset::Spin
    } else if l == "shake"@ {
        AnimationPreset::Shake
    } else if l == "wobble"@ {
        AnimationPreset::Wobble
    } else if l == "typewriter"@ {
        AnimationPreset::Typewriter
    } else if l == "draw_path"@ || l == "draw-path"@ || l == "drawpath"@ {
        AnimationPreset::DrawPath
    } else if l == "morph"@ {
        AnimationPreset::Morph
    } else if l == "gradient_shift"@ || l == "gradient-shift"@ {
        AnimationPreset::GradientShift
    } else if l == "parallax_scroll"@ || l == "parallax-scroll"@ {
        AnimationPreset::ParallaxScroll
    } else if l == "stagger"@ {
        AnimationPreset::Stagger
    } else {
        AnimationPreset::FadeIn
    }
}

/// The preset named by an already lowercased name.
pub fn preset_from_lowercase(l: &str) -> (r: AnimationPreset)
    ensures
        r == preset_named(l@),
{
    if str_eq(l, "fade_in") || str_eq(l, "fadein") || str_eq(l, "fade-in") {
        AnimationPreset::FadeIn
    } else if str_eq(l, "fade_out") || str_eq(l, "fadeout") || str_eq(l, "fade-out") {
        AnimationPreset::FadeOut
    } else if str_eq(l, "slide_in_left") || str_eq(l, "slide-in-left") {
        AnimationPreset::SlideInLeft
    } else if str_eq(l, "slide_in_right") || str_eq(l, "slide-in-right") {
        AnimationPreset::SlideInRight
    } else if str_eq(l, "slide_in_up") || str_eq(l, "slide-in-up") {
        AnimationPreset::SlideInUp
    } else if str_eq(l, "slide_in_down") || str_eq(l, "slide-in-down") {
        AnimationPreset::SlideInDown
    } else if str_eq(l, "bounce") {
        AnimationPreset::Bounce
    } else if str_eq(l, "pulse") {
        AnimationPreset::Pulse
    } else if str_eq(l, "spin") {
        AnimationPreset::Spin
    } else if str_eq(l, "shake") {
        AnimationPreset::Shake
    } else if str_eq(l, "wobble") {
        AnimationPreset::Wobble
    } else if str_eq(l, "typewriter") {
        AnimationPreset::Typewriter
    } else if str_eq(l, "draw_path") || str_eq(l, "draw-path") || str_eq(l, "drawpath") {
        AnimationPreset::DrawPath
    } else if str_eq(l, "morph") {
        AnimationPreset::Morph
    } else if str_eq(l, "gradient_shift") || str_eq(l, "gradient-shift") {
        AnimationPreset::GradientShift
    } else if str_eq(l, "parallax_scroll") || str_eq(l, "parallax-scroll") {
        AnimationPreset::ParallaxScroll
    } else if str_eq(l, "stagger") {
        AnimationPreset::Stagger
    } else {
        AnimationPreset::FadeIn
    }
}

/// The preset named by `s`, compared without regard to case.
pub fn parse_preset(s: &str) -> (r: AnimationPreset)
    ensures
        r == preset_named(lowercase(s@)),
        is_ascii_text(s@) ==> r == preset_named(ascii_lowercase(s@)),
{
    let l = to_lowercase(s);
    preset_from_lowercase(l.as_str())
}

/// The serde name of each preset: its variant name in snake_case.
pub open spec fn preset_snake_name(p: AnimationPreset) -> Seq<char> {
    match p {
        AnimationPreset::FadeIn => "fade_in"@,
        AnimationPreset::FadeOut => "fade_out"@,
        AnimationPreset::SlideInLeft => "slide_in_left"@,
        AnimationPreset::SlideInRight => "slide_in_right"@,
        AnimationPreset::SlideInUp => "slide_in_up"@,
        AnimationPreset::SlideInDown => "slide_in_down"@,
        AnimationPreset::Bounce => "bounce"@,
        AnimationPreset::Pulse => "pulse"@,
        AnimationPreset::Spin => "spin"@,
        AnimationPreset::Shake => "shake"@,
        AnimationPreset::Wobble => "wobble"@,
        AnimationPreset::Typewriter => "typewriter"@,
        AnimationPreset::DrawPath => "draw_path"@,
        AnimationPreset::Morph => "morph"@,
        AnimationPreset::GradientShift => "gradient_shift"@,
        AnimationPreset::ParallaxScroll => "parallax_scroll"@,
        AnimationPreset::Stagger => "stagger"@,
    }
}

/// `s` with every underscore replaced by a hyphen.
pub open spec fn hyphenated(s: Seq<char>) -> Seq<char> {
    s.map_values(|c: char| if c == '_' { '-' } else { c })
}

/// A preset's snake_case name, or that name with hyphens for its
/// underscores, spelled in ASCII letters of either case, selects that
/// preset (by the `ascii_lowercase` clause of `parse_preset`).
pub proof fn lemma_preset_name_selects_preset(p: AnimationPreset, s: Seq<char>)
    requires
        is_ascii_text(s),
        ascii_lowercase(s) == preset_snake_name(p) || ascii_lowercase(s) == hyphenated(
            preset_snake_name(p),
        ),
    ensures
        preset_named(ascii_lowercase(s)) == p,
{
    reveal_strlit("fade_in");
    reveal_strlit("fadein");
    reveal_strlit("fade-in");
    reveal_strlit("fade_out");
    reveal_strlit("fadeout");
    reveal_strlit("fade-out");
    reveal_strlit("slide_in_left");
    reveal_strlit("slide-in-left");
    reveal_strlit("slide_in_right");
    reveal_strlit("slide-in-right");
    reveal_strlit("slide_in_up");
    reveal_strlit("slide-in-up");
    reveal_strlit("slide_in_down");
    reveal_strlit("slide-in-down");
    reveal_strlit("bounce");
    reveal_strlit("pulse");
    reveal_strlit("spin");
    reveal_strlit("shake");
    reveal_strlit("wobble");
    reveal_strlit("typewriter");
    reveal_strlit("draw_path");
    reveal_strlit("draw-path");
    reveal_strlit("drawpath");
    reveal_strlit("morph");
    reveal_strlit("gradient_shift");
    reveal_strlit("gradient-shift");
    reveal_strlit("parallax_scroll");
    reveal_strlit("parallax-scroll");
    reveal_strlit("stagger");
    // Names of one length tell apart at one of these positions.
    assert("fade_in"@[0] == 'f' && "fade_in"@[1] == 'a');
    assert("fadein"@[0] == 'f' && "fadein"@[1] == 'a');
    assert("fade-in"@[0] == 'f' && "fade-in"@[1] == 'a');
    assert("fade_out"@[0] == 'f' && "fade_out"@[1] == 'a');
    assert("fadeout"@[0] == 'f' && "fadeout"@[1] == 'a');
    assert("fade-out"@[0] == 'f' && "fade-out"@[1] == 'a');
    assert("slide_in_left"@[0] == 's' && "slide_in_left"@[1] == 'l' && "slide_in_left"@[9] == 'l');
    assert("slide-in-left"@[0] == 's' && "slide-in-left"@[1] == 'l' && "slide-in-left"@[9] == 'l');
    assert("slide_in_right"@[0] == 's' && "slide_in_right"@[1] == 'l' && "slide_in_right"@[9] == 'r');
    assert("slide-in-right"@[0] == 's' && "slide-in-right"@[1] == 'l' && "slide-in-right"@[9] == 'r');
    assert("slide_in_up"@[0] == 's' && "slide_in_up"@[1] == 'l' && "slide_in_up"@[9] == 'u');
    assert("slide-in-up"@[0] == 's' && "slide-in-up"@[1] == 'l' && "slide-in-up"@[9] == 'u');
    assert("slide_in_down"@[0] == 's' && "slide_in_down"@[1] == 'l' && "slide_in_down"@[9] == 'd');
    assert("slide-in-down"@[0] == 's' && "slide-in-down"@[1] == 'l' && "slide-in-down"@[9] == 'd');
    assert("bounce"@[0] == 'b' && "bounce"@[1] == 'o');
    assert("pulse"@[0] == 'p' && "pulse"@[1] == 'u');
    assert("spin"@[0] == 's' && "spin"@[1] == 'p');
    assert("shake"@[0] == 's' && "shake"@[1] == 'h');
    assert("wobble"@[0] == 'w' && "wobble"@[1] == 'o');
    assert("typewriter"@[0] == 't' && "typewriter"@[1] == 'y' && "typewriter"@[9] == 'r');
    assert("draw_path"@[0] == 'd' && "draw_path"@[1] == 'r');
    assert("draw-path"@[0] == 'd' && "draw-path"@[1] == 'r');
    assert("drawpath"@[0] == 'd' && "drawpath"@[1] == 'r');
    assert("morph"@[0] == 'm' && "morph"@[1] == 'o');
    assert("gradient_shift"@[0] == 'g' && "gradient_shift"@[1] == 'r' && "gradient_shift"@[9] == 's');
    assert("gradient-shift"@[0] == 'g' && "gradient-shift"@[1] == 'r' && "gradient-shift"@[9] == 's');
    assert("parallax_scroll"@[0] == 'p' && "parallax_scroll"@[1] == 'a' && "parallax_scroll"@[9] == 's');
    assert("parallax-scroll"@[0] == 'p' && "parallax-scroll"@[1] == 'a' && "parallax-scroll"@[9] == 's');
    assert("stagger"@[0] == 's' && "stagger"@[1] == 't');
    match p {
        AnimationPreset::FadeIn => {
            assert(hyphenated("fade_in"@) =~= "fade-in"@);
            assert(preset_named(ascii_lowercase(s)) == AnimationPreset::FadeIn);
        },
        AnimationPreset::FadeOut => {
            assert(hyphenated("fade_out"@) =~= "fade-out"@);
            assert(preset_named(ascii_lowercase(s)) == AnimationPreset::FadeOut);
        },
        AnimationPreset::SlideInLeft => {
            assert(hyphenated("slide_in_left"@) =~= "slide-in-left"@);
            assert(preset_named(ascii_lowercase(s)) == AnimationPreset::SlideInLeft);
        },
        AnimationPreset::SlideInRight => {
            assert(hyphenated("slide_in_right"@) =~= "slide-in-right"@);
            assert(preset_named(ascii_lowercase(s)) == AnimationPreset::SlideInRight);
        },
        AnimationPreset::SlideInUp => {
            assert(hyphenated("slide_in_up"@) =~= "slide-in-up"@);
            assert(preset_named(ascii_lowercase(s)) == AnimationPreset::SlideInUp);
        },
        AnimationPreset::SlideInDown => {
            assert(hyphenated("slide_in_down"@) =~= "slide-in-down"@);
            assert(preset_named(ascii_lowercase(s)) == AnimationPreset::SlideInDown);
        },
        AnimationPreset::Bounce => {
            assert(hyphenated("bounce"@) =~= "bounce"@);
            assert(preset_named(ascii_lowercase(s)) == AnimationPreset::Bounce);
        },
        AnimationPreset::Pulse => {
            assert(hyphenated("pulse"@) =~= "pulse"@);
            assert(preset_named(ascii_lowercase(s)) == AnimationPreset::Pulse);
        },
        AnimationPreset::Spin => {
            assert(hyphenated("spin"@) =~= "spin"@);
            assert(preset_named(ascii_lowercase(s)) == AnimationPreset::Spin);
        },
        AnimationPreset::Shake => {
            assert(hyphenated("shake"@) =~= "shake"@);
            assert(preset_named(ascii_lowercase(s)) == AnimationPreset::Shake);
        },
        AnimationPreset::Wobble => {
            assert(hyphenated("wobble"@) =~= "wobble"@);
            assert(preset_named(ascii_lowercase(s)) == AnimationPreset::Wobble);
        },
        AnimationPreset::Typewriter => {
            assert(hyphenated("typewriter"@) =~= "typewriter"@);
            assert(preset_named(ascii_lowercase(s)) == AnimationPreset::Typewriter);
        },
        AnimationPreset::DrawPath => {
            assert(hyphenated("draw_path"@) =~= "draw-path"@);
            assert(preset_named(ascii_lowercase(s)) == AnimationPreset::DrawPath);
        },
        AnimationPreset::Morph => {
            assert(hyphenated("morph"@) =~= "morph"@);
            assert(preset_named(ascii_lowercase(s)) == AnimationPreset::Morph);
        },
        AnimationPreset::GradientShift => {
            assert(hyphenated("gradient_shift"@) =~= "gradient-shift"@);
            assert(preset_named(ascii_lowercase(s)) == AnimationPreset::GradientShift);
        },
        AnimationPreset::ParallaxScroll => {
            assert(hyphenated("parallax_scroll"@) =~= "parallax-scroll"@);
            assert(preset_named(ascii_lowercase(s)) == AnimationPreset::ParallaxScroll);
        },
        AnimationPreset::Stagger => {
            assert(hyphenated("stagger"@) =~= "stagger"@);
            assert(preset_named(ascii_lowercase(s)) == AnimationPreset::Stagger);
        },
    }
}

// ---------------------------------------------------------------------
// Easing names
// ---------------------------------------------------------------------

/// The easing curves an easing name can select.
#[derive(Debug, Clone, Copy, PartialEq, Eq, Structural)]
pub enum EasingCurve {
    Linear,
    EaseInQuad,
    EaseOutQuad,
    EaseInOutQuad,
    EaseInCubic,
    EaseOutCubic,
    EaseInOutCubic,
    EaseInExpo,
    EaseOutExpo,
    EaseInOutExpo,
    EaseOutBounce,
    EaseOutElastic,
    /// A spring with stiffness 100, damping 10 and mass 1.
    Spring,
    /// A cubic Bézier curve whose four control values are given as text.
    CubicBezier,
}

/// The easing an easing name selects: its curve and, for a cubic Bézier
/// curve, the four (trimmed) control-value texts in the order x1, y1, x2,
/// y2, which are read as numbers by the caller.
#[derive(Debug, Clone, PartialEq)]
pub struct EasingChoice {
    pub curve: EasingCurve,
    pub bezier_args: Vec<String>,
}

/// `s` split at every occurrence of `c` (std `str::split`): one more part
/// than there are separators.
pub open spec fn split_on(s: Seq<char>, c: char) -> Seq<Seq<char>>
    decreases s.len(),
{
    if s.len() == 0 {
        seq![Seq::empty()]
    } else {
        let parts = split_on(s.drop_last(), c);
        if s.last() == c {
            parts.push(Seq::empty())
        } else {
            parts.update(parts.len() - 1, parts.last().push(s.last()))
        }
    }
}

/// `split_on` never yields an empty list of parts.
pub proof fn lemma_split_on_nonempty(s: Seq<char>, c: char)
    ensures
        split_on(s, c).len() >= 1,
    decreases s.len(),
{
    if s.len() > 0 {
        lemma_split_on_nonempty(s.drop_last(), c);
    }
}

/// The text between `cubic-bezier(` and a final `)`, when `name` has that
/// form.
pub open spec fn bezier_call_content(name: Seq<char>) -> Option<Seq<char>> {
    let pre = "cubic-bezier("@;
    if name.len() >= pre.len() + 1 && name.subrange(0, pre.len() as int) == pre && name.last()
        == ')' {
        Some(name.subrange(pre.len() as int, name.len() - 1))
    } else {
        None
    }
}

/// The trimmed comma-separated arguments of a `cubic-bezier(...)` name
/// when there are exactly four of them.
pub open spec fn bezier_args_of(name: Seq<char>) -> Option<Seq<Seq<char>>> {
    match bezier_call_content(name) {
        Some(content) => {
            let parts = split_on(content, ',');
            if parts.len() == 4 {
                Some(parts.map_values(|p: Seq<char>| trimmed(p)))
            } else {
                None
            }
        },
        None => None,
    }
}

/// The curve selected by an easing name `name` whose lowercased text is
/// `l`: known names are compared lowercased; otherwise `name` itself is
/// read as a `cubic-bezier(x1, y1, x2, y2)` call; anything else is linear.
pub open spec fn easing_curve_named(name: Seq<char>, l: Seq<char>) -> EasingCurve {
    if l == "linear"@ {
        EasingCurve::Linear
    } else if l == "ease_in"@ || l == "easein"@ || l == "ease-in"@ {
        EasingCurve::EaseInQuad
    } else if l == "ease_out"@ || l == "easeout"@ || l == "ease-out"@ {
        EasingCurve::EaseOutQuad
    } else if l == "ease_in_out"@ || l == "easeinout"@ || l == "ease-in-out"@ {
        EasingCurve::EaseInOutQuad
    } else if l == "ease_in_cubic"@ || l == "ease-in-cubic"@ {
        EasingCurve::EaseInCubic
    } else if l == "ease_out_cubic"@ || l == "ease-out-cubic"@ {
        EasingCurve::EaseOutCubic
    } else if l == "ease_in_out_cubic"@ || l == "ease-in-out-cubic"@ {
        EasingCurve::EaseInOutCubic
    } else if l == "ease_in_expo"@ || l == "ease-in-expo"@ {
        EasingCurve::EaseInExpo
    } else if l == "ease_out_expo"@ || l == "ease-out-expo"@ {
        EasingCurve::EaseOutExpo
    } else if l == "ease_in_out_expo"@ || l == "ease-in-out-expo"@ {
        EasingCurve::EaseInOutExpo
    } else if l == "bounce"@ || l == "ease_out_bounce"@ || l == "ease-out-bounce"@ {
        EasingCurve::EaseOutBounce
    } else if l == "elastic"@ || l == "ease_out_elastic"@ || l == "ease-out-elastic"@ {
        EasingCurve::EaseOutElastic
    } else if l == "spring"@ {
        EasingCurve::Spring
    } else if bezier_args_of(name) is Some {
        EasingCurve::CubicBezier
    } else {
        EasingCurve::Linear
    }
}

/// The Bézier control texts selected by `name` (empty for other curves).
pub open spec fn easing_args_named(name: Seq<char>, l: Seq<char>) -> Seq<Seq<char>> {
    if easing_curve_named(name, l) == EasingCurve::CubicBezier {
        bezier_args_of(name).unwrap()
    } else {
        Seq::empty()
    }
}

/// The names of each easing curve (the cubic Bézier curve is asked for by
/// a `cubic-bezier(..)` call, not by name).
pub open spec fn easing_names(c: EasingCurve) -> Seq<Seq<char>> {
    match c {
        EasingCurve::Linear => seq!["linear"@],
        EasingCurve::EaseInQuad => seq!["ease_in"@, "easein"@, "ease-in"@],
        EasingCurve::EaseOutQuad => seq!["ease_out"@, "easeout"@, "ease-out"@],
        EasingCurve::EaseInOutQuad => seq!["ease_in_out"@, "easeinout"@, "ease-in-out"@],
        EasingCurve::EaseInCubic => seq!["ease_in_cubic"@, "ease-in-cubic"@],
        EasingCurve::EaseOutCubic => seq!["ease_out_cubic"@, "ease-out-cubic"@],
        EasingCurve::EaseInOutCubic => seq!["ease_in_out_cubic"@, "ease-in-out-cubic"@],
        EasingCurve::EaseInExpo => seq!["ease_in_expo"@, "ease-in-expo"@],
        EasingCurve::EaseOutExpo => seq!["ease_out_expo"@, "ease-out-expo"@],
        EasingCurve::EaseInOutExpo => seq!["ease_in_out_expo"@, "ease-in-out-expo"@],
        EasingCurve::EaseOutBounce => seq!["bounce"@, "ease_out_bounce"@, "ease-out-bounce"@],
        EasingCurve::EaseOutElastic => seq!["elastic"@, "ease_out_elastic"@, "ease-out-elastic"@],
        EasingCurve::Spring => seq!["spring"@],
        EasingCurve::CubicBezier => Seq::empty(),
    }
}

/// Each easing name selects its own curve: every name of a curve in
/// `easing_names`, lowercased, selects that curve, whatever text it was
/// lowercased from.
pub proof fn lemma_easing_name_selects_curve(c: EasingCurve, k: int, name: Seq<char>)
    requires
        0 <= k < easing_names(c).len(),
    ensures
        easing_curve_named(name, easing_names(c)[k]) == c,
{
    reveal_strlit("linear");
    reveal_strlit("ease_in");
    reveal_strlit("easein");
    reveal_strlit("ease-in");
    reveal_strlit("ease_out");
    reveal_strlit("easeout");
    reveal_strlit("ease-out");
    reveal_strlit("ease_in_out");
    reveal_strlit("easeinout");
    reveal_strlit("ease-in-out");
    reveal_strlit("ease_in_cubic");
    reveal_strlit("ease-in-cubic");
    reveal_strlit("ease_out_cubic");
    reveal_strlit("ease-out-cubic");
    reveal_strlit("ease_in_out_cubic");
    reveal_strlit("ease-in-out-cubic");
    reveal_strlit("ease_in_expo");
    reveal_strlit("ease-in-expo");
    reveal_strlit("ease_out_expo");
    reveal_strlit("ease-out-expo");
    reveal_strlit("ease_in_out_expo");
    reveal_strlit("ease-in-out-expo");
    reveal_strlit("bounce");
    reveal_strlit("ease_out_bounce");
    reveal_strlit("ease-out-bounce");
    reveal_strlit("elastic");
    reveal_strlit("ease_out_elastic");
    reveal_strlit("ease-out-elastic");
    reveal_strlit("spring");
    // Names of one length tell apart at one of these positions.
    assert("linear"@[0] == 'l' && "linear"@[1] == 'i' && "linear"@[4] == 'a' && "linear"@[5] == 'r');
    assert("ease_in"@[0] == 'e' && "ease_in"@[1] == 'a' && "ease_in"@[4] == '_' && "ease_in"@[5] == 'i');
    assert("easein"@[0] == 'e' && "easein"@[1] == 'a' && "easein"@[4] == 'i' && "easein"@[5] == 'n');
    assert("ease-in"@[0] == 'e' && "ease-in"@[1] == 'a' && "ease-in"@[4] == '-' && "ease-in"@[5] == 'i');
    assert("ease_out"@[0] == 'e' && "ease_out"@[1] == 'a' && "ease_out"@[4] == '_' && "ease_out"@[5] == 'o');
    assert("easeout"@[0] == 'e' && "easeout"@[1] == 'a' && "easeout"@[4] == 'o' && "easeout"@[5] == 'u');
    assert("ease-out"@[0] == 'e' && "ease-out"@[1] == 'a' && "ease-out"@[4] == '-' && "ease-out"@[5] == 'o');
    assert("ease_in_out"@[0] == 'e' && "ease_in_out"@[1] == 'a' && "ease_in_out"@[4] == '_' && "ease_in_out"@[5] == 'i');
    assert("easeinout"@[0] == 'e' && "easeinout"@[1] == 'a' && "easeinout"@[4] == 'i' && "easeinout"@[5] == 'n');
    assert("ease-in-out"@[0] == 'e' && "ease-in-out"@[1] == 'a' && "ease-in-out"@[4] == '-' && "ease-in-out"@[5] == 'i');
    assert("ease_in_cubic"@[0] == 'e' && "ease_in_cubic"@[1] == 'a' && "ease_in_cubic"@[4] == '_' && "ease_in_cubic"@[5] == 'i');
    assert("ease-in-cubic"@[0] == 'e' && "ease-in-cubic"@[1] == 'a' && "ease-in-cubic"@[4] == '-' && "ease-in-cubic"@[5] == 'i');
    assert("ease_out_cubic"@[0] == 'e' && "ease_out_cubic"@[1] == 'a' && "ease_out_cubic"@[4] == '_' && "ease_out_cubic"@[5] == 'o');
    assert("ease-out-cubic"@[0] == 'e' && "ease-out-cubic"@[1] == 'a' && "ease-out-cubic"@[4] == '-' && "ease-out-cubic"@[5] == 'o');
    assert("ease_in_out_cubic"@[0] == 'e' && "ease_in_out_cubic"@[1] == 'a' && "ease_in_out_cubic"@[4] == '_' && "ease_in_out_cubic"@[5] == 'i');
    assert("ease-in-out-cubic"@[0] == 'e' && "ease-in-out-cubic"@[1] == 'a' && "ease-in-out-cubic"@[4] == '-' && "ease-in-out-cubic"@[5] == 'i');
    assert("ease_in_expo"@[0] == 'e' && "ease_in_expo"@[1] == 'a' && "ease_in_expo"@[4] == '_' && "ease_in_expo"@[5] == 'i');
    assert("ease-in-expo"@[0] == 'e' && "ease-in-expo"@[1] == 'a' && "ease-in-expo"@[4] == '-' && "ease-in-expo"@[5] == 'i');
    assert("ease_out_expo"@[0] == 'e' && "ease_out_expo"@[1] == 'a' && "ease_out_expo"@[4] == '_' && "ease_out_expo"@[5] == 'o');
    assert("ease-out-expo"@[0] == 'e' && "ease-out-expo"@[1] == 'a' && "ease-out-expo"@[4] == '-' && "ease-out-expo"@[5] == 'o');
    assert("ease_in_out_expo"@[0] == 'e' && "ease_in_out_expo"@[1] == 'a' && "ease_in_out_expo"@[4] == '_' && "ease_in_out_expo"@[5] == 'i');
    assert("ease-in-out-expo"@[0] == 'e' && "ease-in-out-expo"@[1] == 'a' && "ease-in-out-expo"@[4] == '-' && "ease-in-out-expo"@[5] == 'i');
    assert("bounce"@[0] == 'b' && "bounce"@[1] == 'o' && "bounce"@[4] == 'c' && "bounce"@[5] == 'e');
    assert("ease_out_bounce"@[0] == 'e' && "ease_out_bounce"@[1] == 'a' && "ease_out_bounce"@[4] == '_' && "ease_out_bounce"@[5] == 'o');
    assert("ease-out-bounce"@[0] == 'e' && "ease-out-bounce"@[1] == 'a' && "ease-out-bounce"@[4] == '-' && "ease-out-bounce"@[5] == 'o');
    assert("elastic"@[0] == 'e' && "elastic"@[1] == 'l' && "elastic"@[4] == 't' && "elastic"@[5] == 'i');
    assert("ease_out_elastic"@[0] == 'e' && "ease_out_elastic"@[1] == 'a' && "ease_out_elastic"@[4] == '_' && "ease_out_elastic"@[5] == 'o');
    assert("ease-out-elastic"@[0] == 'e' && "ease-out-elastic"@[1] == 'a' && "ease-out-elastic"@[4] == '-' && "ease-out-elastic"@[5] == 'o');
    assert("spring"@[0] == 's' && "spring"@[1] == 'p' && "spring"@[4] == 'n' && "spring"@[5] == 'g');
    match c {
        EasingCurve::Linear => {
            if k == 0 {
                assert(easing_names(c)[k] == "linear"@);
            }
        },
        EasingCurve::EaseInQuad => {
            if k == 0 {
                assert(easing_names(c)[k] == "ease_in"@);
            } else if k == 1 {
                assert(easing_names(c)[k] == "easein"@);
            } else if k == 2 {
                assert(easing_names(c)[k] == "ease-in"@);
            }
        },
        EasingCurve::EaseOutQuad => {
            if k == 0 {
                assert(easing_names(c)[k] == "ease_out"@);
            } else if k == 1 {
                assert(easing_names(c)[k] == "easeout"@);
            } else if k == 2 {
                assert(easing_names(c)[k] == "ease-out"@);
            }
        },
        EasingCurve::EaseInOutQuad => {
            if k == 0 {
                assert(easing_names(c)[k] == "ease_in_out"@);
            } else if k == 1 {
                assert(easing_names(c)[k] == "easeinout"@);
            } else if k == 2 {
                assert(easing_names(c)[k] == "ease-in-out"@);
            }
        },
        EasingCurve::EaseInCubic => {
            if k == 0 {
                assert(easing_names(c)[k] == "ease_in_cubic"@);
            } else if k == 1 {
                assert(easing_names(c)[k] == "ease-in-cubic"@);
            }
        },
        EasingCurve::EaseOutCubic => {
            if k == 0 {
                assert(easing_names(c)[k] == "ease_out_cubic"@);
            } else if k == 1 {
                assert(easing_names(c)[k] == "ease-out-cubic"@);
            }
        },
        EasingCurve::EaseInOutCubic => {
            if k == 0 {
                assert(easing_names(c)[k] == "ease_in_out_cubic"@);
            } else if k == 1 {
                assert(easing_names(c)[k] == "ease-in-out-cubic"@);
            }
        },
        EasingCurve::EaseInExpo => {
            if k == 0 {
                assert(easing_names(c)[k] == "ease_in_expo"@);
            } else if k == 1 {
                assert(easing_names(c)[k] == "ease-in-expo"@);
            }
        },
        EasingCurve::EaseOutExpo => {
            if k == 0 {
                assert(easing_names(c)[k] == "ease_out_expo"@);
            } else if k == 1 {
                assert(easing_names(c)[k] == "ease-out-expo"@);
            }
        },
        EasingCurve::EaseInOutExpo => {
            if k == 0 {
                assert(easing_names(c)[k] == "ease_in_out_expo"@);
            } else if k == 1 {
                assert(easing_names(c)[k] == "ease-in-out-expo"@);
            }
        },
        EasingCurve::EaseOutBounce => {
            if k == 0 {
                assert(easing_names(c)[k] == "bounce"@);
            } else if k == 1 {
                assert(easing_names(c)[k] == "ease_out_bounce"@);
            } else if k == 2 {
                assert(easing_names(c)[k] == "ease-out-bounce"@);
            }
        },
        EasingCurve::EaseOutElastic => {
            if k == 0 {
                assert(easing_names(c)[k] == "elastic"@);
            } else if k == 1 {
                assert(easing_names(c)[k] == "ease_out_elastic"@);
            } else if k == 2 {
                assert(easing_names(c)[k] == "ease-out-elastic"@);
            }
        },
        EasingCurve::Spring => {
            if k == 0 {
                assert(easing_names(c)[k] == "spring"@);
            }
        },
        EasingCurve::CubicBezier => {},
    }
}

fn split_chars(s: &Vec<char>, c: char) -> (r: Vec<Vec<char>>)
    ensures
        r@.map_values(|v: Vec<char>| v@) == split_on(s@, c),
{
    let mut parts: Vec<Vec<char>> = Vec::new();
    let mut cur: Vec<char> = Vec::new();
    let mut i: usize = 0;
    assert(s@.take(0) =~= Seq::<char>::empty());
    assert(parts@.map_values(|v: Vec<char>| v@).push(cur@) =~= split_on(s@.take(0), c));
    while i < s.len()
        invariant
            i <= s@.len(),
            parts@.map_values(|v: Vec<char>| v@).push(cur@) == split_on(s@.take(i as int), c),
        decreases s@.len() - i,
    {
        let ghost before = parts@.map_values(|v: Vec<char>| v@).push(cur@);
        assert(s@.take(i + 1).drop_last() =~= s@.take(i as int));
        assert(s@.take(i + 1).last() == s@[i as int]);
        if s[i] == c {
            let done = cur;
            parts.push(done);
            cur = Vec::new();
            assert(parts@.map_values(|v: Vec<char>| v@).push(cur@) =~= before.push(Seq::empty()));
        } else {
            cur.push(s[i]);
            assert(parts@.map_values(|v: Vec<char>| v@).push(cur@) =~= before.update(
                before.len() - 1,
                before.last().push(s@[i as int]),
            ));
        }
        i = i + 1;
    }
    parts.push(cur);
    assert(s@.take(s@.len() as int) =~= s@);
    assert(parts@.map_values(|v: Vec<char>| v@) =~= split_on(s@, c));
    parts
}

fn bezier_args(name: &str) -> (r: Option<Vec<String>>)
    ensures
        match r {
            Some(a) => bezier_args_of(name@) == Some(texts(a@)),
            None => bezier_args_of(name@) is None,
        },
{
    let n = chars_of(name);
    let pre = chars_of("cubic-bezier(");
    proof {
        reveal_strlit("cubic-bezier(");
    }
    let plen = pre.len();
    if n.len() < plen + 1 || n[n.len() - 1] != ')' {
        return None;
    }
    let mut i: usize = 0;
    while i < plen
        invariant
            i <= plen == pre@.len(),
            plen + 1 <= n@.len(),
            n@ == name@,
            pre@ == "cubic-bezier("@,
            forall|k: int| 0 <= k < i ==> n@[k] == pre@[k],
        decreases plen - i,
    {
        if n[i] != pre[i] {
            assert(n@.subrange(0, plen as int)[i as int] != pre@[i as int]);
            return None;
        }
        i = i + 1;
    }
    assert(n@.subrange(0, plen as int) =~= pre@);
    let mut content: Vec<char> = Vec::new();
    let mut j = plen;
    while j < n.len() - 1
        invariant
            plen <= j <= n@.len() - 1,
            content@ == n@.subrange(plen as int, j as int),
        decreases n@.len() - 1 - j,
    {
        content.push(n[j]);
        assert(n@.subrange(plen as int, j + 1) =~= n@.subrange(plen as int, j as int).push(n@[j as int]));
        j = j + 1;
    }
    let parts = split_chars(&content, ',');
    proof {
        assert(n@.last() == ')');
        assert(bezier_call_content(name@) == Some(content@));
        assert(parts@.map_values(|v: Vec<char>| v@).len() == parts@.len());
    }
    if parts.len() != 4 {
        return None;
    }
    let mut out: Vec<String> = Vec::new();
    let mut k: usize = 0;
    while k < 4
        invariant
            k <= 4,
            parts@.len() == 4,
            parts@.map_values(|v: Vec<char>| v@) == split_on(content@, ','),
            out@.len() == k,
            forall|q: int| 0 <= q < k ==> #[trigger] out@[q]@ == trimmed(parts@[q]@),
        decreases 4 - k,
    {
        let t = trim_chars(&parts[k]);
        out.push(string_from_chars(&t));
        k = k + 1;
    }
    proof {
        let sp = split_on(content@, ',');
        assert forall|q: int| 0 <= q < 4 implies sp[q] == parts@[q]@ by {
            assert(parts@.map_values(|v: Vec<char>| v@)[q] == parts@[q]@);
        }
        assert(texts(out@) =~= sp.map_values(|p: Seq<char>| trimmed(p)));
    }
    Some(out)
}

/// The easing selected by an easing name whose lowercased text is `l`.
pub fn easing_from_names(name: &str, l: &str) -> (r: EasingChoice)
    ensures
        r.curve == easing_curve_named(name@, l@),
        texts(r.bezier_args@) == easing_args_named(name@, l@),
{
    let curve = if str_eq(l, "linear") {
        EasingCurve::Linear
    } else if str_eq(l, "ease_in") || str_eq(l, "easein") || str_eq(l, "ease-in") {
        EasingCurve::EaseInQuad
    } else if str_eq(l, "ease_out") || str_eq(l, "easeout") || str_eq(l, "ease-out") {
        EasingCurve::EaseOutQuad
    } else if str_eq(l, "ease_in_out") || str_eq(l, "easeinout") || str_eq(l, "ease-in-out") {
        EasingCurve::EaseInOutQuad
    } else if str_eq(l, "ease_in_cubic") || str_eq(l, "ease-in-cubic") {
        EasingCurve::EaseInCubic
    } else if str_eq(l, "ease_out_cubic") || str_eq(l, "ease-out-cubic") {
        EasingCurve::EaseOutCubic
    } else if str_eq(l, "ease_in_out_cubic") || str_eq(l, "ease-in-out-cubic") {
        EasingCurve::EaseInOutCubic
    } else if str_eq(l, "ease_in_expo") || str_eq(l, "ease-in-expo") {
        EasingCurve::EaseInExpo
    } else if str_eq(l, "ease_out_expo") || str_eq(l, "ease-out-expo") {
        EasingCurve::EaseOutExpo
    } else if str_eq(l, "ease_in_out_expo") || str_eq(l, "ease-in-out-expo") {
        EasingCurve::EaseInOutExpo
    } else if str_eq(l, "bounce") || str_eq(l, "ease_out_bounce") || str_eq(l, "ease-out-bounce") {
        EasingCurve::EaseOutBounce
    } else if str_eq(l, "elastic") || str_eq(l, "ease_out_elastic") || str_eq(
        l,
        "ease-out-elastic",
    ) {
        EasingCurve::EaseOutElastic
    } else if str_eq(l, "spring") {
        EasingCurve::Spring
    } else {
        match bezier_args(name) {
            Some(args) => {
                return EasingChoice { curve: EasingCurve::CubicBezier, bezier_args: args };
            },
            None => EasingCurve::Linear,
        }
    };
    let none: Vec<String> = Vec::new();
    assert(texts(none@) =~= Seq::<Seq<char>>::empty());
    EasingChoice { curve, bezier_args: none }
}

/// The easing named by `s` (linear when no name is given).
pub fn parse_easing(s: Option<&str>) -> (r: EasingChoice)
    ensures
        ({
            let name = match s {
                Some(x) => x@,
                None => "linear"@,
            };
            &&& r.curve == easing_curve_named(name, lowercase(name))
            &&& texts(r.bezier_args@) == easing_args_named(name, lowercase(name))
            &&& is_ascii_text(name) ==> r.curve == easing_curve_named(name, ascii_lowercase(name))
        }),
{
    let name: &str = match s {
        Some(x) => x,
        None => "linear",
    };
    let l = to_lowercase(name);
    easing_from_names(name, l.as_str())
}

// ---------------------------------------------------------------------
// Timeline modes
// ---------------------------------------------------------------------

/// How the animations of a timeline are placed in time.
#[derive(Debug, Clone, Copy, PartialEq, Eq, Structural)]
pub enum TimelineModeKind {
    Parallel,
    Sequential,
    Staggered,
}

/// The timeline mode a lowercased mode name selects (parallel unless
/// "sequential" or "staggered").
pub open spec fn timeline_mode_named(l: Seq<char>) -> TimelineModeKind {
    if l == "sequential"@ {
        TimelineModeKind::Sequential
    } else if l == "staggered"@ {
        TimelineModeKind::Staggered
    } else {
        TimelineModeKind::Parallel
    }
}

/// Each timeline mode name and the mode it names.
pub open spec fn timeline_mode_table() -> Seq<(Seq<char>, TimelineModeKind)> {
    seq![
        ("sequential"@, TimelineModeKind::Sequential),
        ("staggered"@, TimelineModeKind::Staggered),
        ("parallel"@, TimelineModeKind::Parallel),
    ]
}

/// Every timeline mode name of the table selects the mode it names.
pub proof fn lemma_timeline_mode_name_selects_mode(k: int)
    requires
        0 <= k < timeline_mode_table().len(),
    ensures
        timeline_mode_named(timeline_mode_table()[k].0) == timeline_mode_table()[k].1,
{
    reveal_strlit("parallel");
    reveal_strlit("sequential");
    reveal_strlit("staggered");
    assert("parallel"@.len() == 8 && "parallel"@[0] == 'p' && "parallel"@[1] == 'a' && "parallel"@[2] == 'r' && "parallel"@[3] == 'a' && "parallel"@[4] == 'l' && "parallel"@[5] == 'l' && "parallel"@[6] == 'e' && "parallel"@[7] == 'l');
    assert("sequential"@.len() == 10 && "sequential"@[0] == 's' && "sequential"@[1] == 'e' && "sequential"@[2] == 'q' && "sequential"@[3] == 'u' && "sequential"@[4] == 'e' && "sequential"@[5] == 'n' && "sequential"@[6] == 't' && "sequential"@[7] == 'i' && "sequential"@[8] == 'a' && "sequential"@[9] == 'l');
    assert("staggered"@.len() == 9 && "staggered"@[0] == 's' && "staggered"@[1] == 't' && "staggered"@[2] == 'a' && "staggered"@[3] == 'g' && "staggered"@[4] == 'g' && "staggered"@[5] == 'e' && "staggered"@[6] == 'r' && "staggered"@[7] == 'e' && "staggered"@[8] == 'd');
    if k == 0 {
        assert(timeline_mode_table()[k] == ("sequential"@, TimelineModeKind::Sequential));
        assert(timeline_mode_named("sequential"@) == TimelineModeKind::Sequential);
    } else if k == 1 {
        assert(timeline_mode_table()[k] == ("staggered"@, TimelineModeKind::Staggered));
        assert(timeline_mode_named("staggered"@) == TimelineModeKind::Staggered);
    } else if k == 2 {
        assert(timeline_mode_table()[k] == ("parallel"@, TimelineModeKind::Parallel));
        assert(timeline_mode_named("parallel"@) == TimelineModeKind::Parallel);
    }
}

/// The timeline mode named by `mode`, compared without regard to case.
pub fn parse_timeline_mode(mode: &str) -> (r: TimelineModeKind)
    ensures
        r == timeline_mode_named(lowercase(mode@)),
        is_ascii_text(mode@) ==> r == timeline_mode_named(ascii_lowercase(mode@)),
{
    let l = to_lowercase(mode);
    timeline_mode_from_lowercase(l.as_str())
}

/// The timeline mode named by an already lowercased name.
pub fn timeline_mode_from_lowercase(l: &str) -> (r: TimelineModeKind)
    ensures
        r == timeline_mode_named(l@),
{
    if str_eq(l, "sequential") {
        TimelineModeKind::Sequential
    } else if str_eq(l, "staggered") {
        TimelineModeKind::Staggered
    } else {
        TimelineModeKind::Parallel
    }
}

/// Vertex `i` of a path of `count` vertices, where a path shorter than
/// `i + 1` vertices collapses onto its last vertex.
pub open spec fn collapsed(i: int, count: int) -> int {
    if i < count {
        i
    } else {
        count - 1
    }
}

/// How the vertices of two paths meet in a morph: one pair per vertex of
/// the longer path, holding vertex `i` of each path, where the shorter
/// path's extra vertices collapse onto its last one. A path without
/// vertices cannot be morphed.
pub fn morph_vertex_pairs(from_count: usize, to_count: usize) -> (r: Result<
    Vec<(usize, usize)>,
    OpenMediaError,
>)
    ensures
        from_count == 0 ==> (r matches Err(OpenMediaError::InvalidParameter { param, reason })
            && param@ == "from_path"@ && reason@ == "Path data has no vertices"@),
        from_count > 0 && to_count == 0 ==> (r matches Err(
            OpenMediaError::InvalidParameter { param, reason },
        ) && param@ == "to_path"@ && reason@ == "Path data has no vertices"@),
        from_count > 0 && to_count > 0 ==> (r matches Ok(pairs) && pairs@.len() == (if from_count
            < to_count {
            to_count
        } else {
            from_count
        }) && forall|i: int|
            0 <= i < pairs@.len() ==> #[trigger] pairs@[i] == (
                collapsed(i, from_count as int) as usize,
                collapsed(i, to_count as int) as usize,
            )),
{
    if from_count == 0 {
        return Err(
            OpenMediaError::InvalidParameter {
                param: String::from_str("from_path"),
                reason: String::from_str("Path data has no vertices"),
            },
        );
    }
    if to_count == 0 {
        return Err(
            OpenMediaError::InvalidParameter {
                param: String::from_str("to_path"),
                reason: String::from_str("Path data has no vertices"),
            },
        );
    }
    let n = if from_count < to_count {
        to_count
    } else {
        from_count
    };
    let mut pairs: Vec<(usize, usize)> = Vec::new();
    let mut i: usize = 0;
    while i < n
        invariant
            i <= n,
            n == (if from_count < to_count {
                to_count
            } else {
                from_count
            }),
            from_count > 0,
            to_count > 0,
            pairs@.len() == i,
            forall|k: int|
                0 <= k < i ==> #[trigger] pairs@[k] == (
                    collapsed(k, from_count as int) as usize,
                    collapsed(k, to_count as int) as usize,
                ),
        decreases n - i,
    {
        let a = if i < from_count {
            i
        } else {
            from_count - 1
        };
        let b = if i < to_count {
            i
        } else {
            to_count - 1
        };
        pairs.push((a, b));
        i = i + 1;
    }
    Ok(pairs)
}

} // verus!
