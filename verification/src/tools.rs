//! Markup produced by the tools: loading spinners, path morphs,
//! refinement placeholders, and the names of output files.

use vstd::prelude::*;
use crate::text::{
    ascii_lowercase, decimal, is_ascii_text, lowercase, occurs_at, push_decimal, push_str, str_eq,
    to_lowercase,
};

verus! {

/// A rotating arc over a faint full circle.
pub open spec fn spinner_ring_markup(color: Seq<char>, size: nat) -> Seq<char> {
    let s = decimal(size);
    "<svg xmlns=\"http://www.w3.org/2000/svg\" width=\""@
            + s
            + "\" height=\""@
            + s
            + "\" viewBox=\"0 0 50 50\">\n  <path d=\"M 25 5 A 20 20 0 0 1 45 25\" fill=\"none\" stroke=\""@
            + color
            + "\" stroke-width=\"4\" stroke-linecap=\"round\">\n    <animateTransform attributeName=\"transform\" type=\"rotate\" from=\"0 25 25\" to=\"360 25 25\" dur=\"1s\" repeatCount=\"indefinite\" />\n  </path>\n  <circle cx=\"25\" cy=\"25\" r=\"20\" fill=\"none\" stroke=\""@
            + color
            + "\" stroke-width=\"4\" opacity=\"0.2\" />\n</svg>"@
}

/// Three bouncing, pulsing dots.
pub open spec fn spinner_dots_markup(color: Seq<char>, size: nat) -> Seq<char> {
    let s = decimal(size);
    "<svg xmlns=\"http://www.w3.org/2000/svg\" width=\""@
            + s
            + "\" height=\""@
            + s
            + "\" viewBox=\"0 0 120 30\">\n  <circle cx=\"20\" cy=\"15\" r=\"8\" fill=\""@
            + color
            + "\">\n    <animate attributeName=\"cy\" values=\"15; 5; 15\" dur=\"1s\" begin=\"0s\" repeatCount=\"indefinite\" />\n    <animate attributeName=\"opacity\" values=\"0.3; 1; 0.3\" dur=\"1s\" begin=\"0s\" repeatCount=\"indefinite\" />\n  </circle>\n  <circle cx=\"60\" cy=\"15\" r=\"8\" fill=\""@
            + color
            + "\">\n    <animate attributeName=\"cy\" values=\"15; 5; 15\" dur=\"1s\" begin=\"0.25s\" repeatCount=\"indefinite\" />\n    <animate attributeName=\"opacity\" values=\"0.3; 1; 0.3\" dur=\"1s\" begin=\"0.25s\" repeatCount=\"indefinite\" />\n  </circle>\n  <circle cx=\"100\" cy=\"15\" r=\"8\" fill=\""@
            + color
            + "\">\n    <animate attributeName=\"cy\" values=\"15; 5; 15\" dur=\"1s\" begin=\"0.5s\" repeatCount=\"indefinite\" />\n    <animate attributeName=\"opacity\" values=\"0.3; 1; 0.3\" dur=\"1s\" begin=\"0.5s\" repeatCount=\"indefinite\" />\n  </circle>\n</svg>"@
}

/// Three bars growing and shrinking in turn.
pub open spec fn spinner_bars_markup(color: Seq<char>, size: nat) -> Seq<char> {
    let s = decimal(size);
    "<svg xmlns=\"http://www.w3.org/2000/svg\" width=\""@
            + s
            + "\" height=\""@
            + s
            + "\" viewBox=\"0 0 50 50\">\n  <rect x=\"10\" y=\"15\" width=\"6\" height=\"20\" fill=\""@
            + color
            + "\">\n    <animate attributeName=\"height\" values=\"20; 40; 20\" dur=\"1s\" begin=\"0s\" repeatCount=\"indefinite\" />\n    <animate attributeName=\"y\" values=\"15; 5; 15\" dur=\"1s\" begin=\"0s\" repeatCount=\"indefinite\" />\n  </rect>\n  <rect x=\"22\" y=\"15\" width=\"6\" height=\"20\" fill=\""@
            + color
            + "\">\n    <animate attributeName=\"height\" values=\"20; 40; 20\" dur=\"1s\" begin=\"0.2s\" repeatCount=\"indefinite\" />\n    <animate attributeName=\"y\" values=\"15; 5; 15\" dur=\"1s\" begin=\"0.2s\" repeatCount=\"indefinite\" />\n  </rect>\n  <rect x=\"34\" y=\"15\" width=\"6\" height=\"20\" fill=\""@
            + color
            + "\">\n    <animate attributeName=\"height\" values=\"20; 40; 20\" dur=\"1s\" begin=\"0.4s\" repeatCount=\"indefinite\" />\n    <animate attributeName=\"y\" values=\"15; 5; 15\" dur=\"1s\" begin=\"0.4s\" repeatCount=\"indefinite\" />\n  </rect>\n</svg>"@
}

/// A rotating dashed circle (the `border` style and any unknown style).
pub open spec fn spinner_default_markup(color: Seq<char>, size: nat) -> Seq<char> {
    let s = decimal(size);
    "<svg xmlns=\"http://www.w3.org/2000/svg\" width=\""@
            + s
            + "\" height=\""@
            + s
            + "\" viewBox=\"0 0 50 50\">\n  <circle cx=\"25\" cy=\"25\" r=\"20\" fill=\"none\" stroke=\""@
            + color
            + "\" stroke-width=\"4\" stroke-dasharray=\"31.4 31.4\" stroke-linecap=\"round\">\n    <animateTransform attributeName=\"transform\" type=\"rotate\" from=\"0 25 25\" to=\"360 25 25\" dur=\"1.2s\" repeatCount=\"indefinite\" />\n  </circle>\n</svg>"@
}

/// The spinner markup for a lowercased style name: `ring`, `dots` and
/// `bars` have their own pictures; any other style is a rotating dashed
/// circle.
pub open spec fn spinner_markup(l: Seq<char>, color: Seq<char>, size: nat) -> Seq<char> {
    if l == "ring"@ {
        spinner_ring_markup(color, size)
    } else if l == "dots"@ {
        spinner_dots_markup(color, size)
    } else if l == "bars"@ {
        spinner_bars_markup(color, size)
    } else {
        spinner_default_markup(color, size)
    }
}

/// The rotation of a ring spinner: a full turn about the centre of its
/// 50 x 50 view box, once a second.
pub open spec fn ring_full_turn() -> Seq<char> {
    "type=\"rotate\" from=\"0 25 25\" to=\"360 25 25\" dur=\"1s\""@
}

/// The rotation of the default (dashed circle) spinner: a full turn about
/// the centre of its view box every 1.2 seconds.
pub open spec fn dashed_full_turn() -> Seq<char> {
    "type=\"rotate\" from=\"0 25 25\" to=\"360 25 25\" dur=\"1.2s\""@
}

/// A ring spinner spins: its markup holds a rotation from angle 0 to a
/// full turn (360 degrees) about the centre of the view box, once a
/// second, whatever its colour and size.
pub proof fn lemma_ring_spinner_turns(color: Seq<char>, size: nat)
    ensures
        exists|i: int| occurs_at(spinner_markup("ring"@, color, size), ring_full_turn(), i),
{
    let sz = decimal(size);
    let a = "<svg xmlns=\"http://www.w3.org/2000/svg\" width=\""@ + sz + "\" height=\""@ + sz + "\" viewBox=\"0 0 50 50\">\n  <path d=\"M 25 5 A 20 20 0 0 1 45 25\" fill=\"none\" stroke=\""@ + color;
    let m = "\" stroke-width=\"4\" stroke-linecap=\"round\">\n    <animateTransform attributeName=\"transform\" type=\"rotate\" from=\"0 25 25\" to=\"360 25 25\" dur=\"1s\" repeatCount=\"indefinite\" />\n  </path>\n  <circle cx=\"25\" cy=\"25\" r=\"20\" fill=\"none\" stroke=\""@;
    let rest = color + "\" stroke-width=\"4\" opacity=\"0.2\" />\n</svg>"@;
    reveal_strlit("\" stroke-width=\"4\" stroke-linecap=\"round\">\n    <animateTransform attributeName=\"transform\" type=\"rotate\" from=\"0 25 25\" to=\"360 25 25\" dur=\"1s\" repeatCount=\"indefinite\" />\n  </path>\n  <circle cx=\"25\" cy=\"25\" r=\"20\" fill=\"none\" stroke=\"");
    reveal_strlit("type=\"rotate\" from=\"0 25 25\" to=\"360 25 25\" dur=\"1s\"");
    let t = ring_full_turn();
    assert(m.subrange(91, 143) =~= t);
    let markup = spinner_markup("ring"@, color, size);
    assert(markup =~= (a + m) + rest);
    let i: int = a.len() as int + 91;
    assert((a + m).subrange(i, i + 52) =~= m.subrange(91, 143));
    assert(markup.subrange(i, i + 52) =~= (a + m).subrange(i, i + 52));
    assert(occurs_at(markup, t, i));
}

/// The default spinner spins too: its markup holds a rotation from angle 0
/// to a full turn about the centre of the view box, every 1.2 seconds.
pub proof fn lemma_default_spinner_turns(color: Seq<char>, size: nat)
    ensures
        exists|i: int| occurs_at(spinner_default_markup(color, size), dashed_full_turn(), i),
{
    let sz = decimal(size);
    let a = "<svg xmlns=\"http://www.w3.org/2000/svg\" width=\""@ + sz + "\" height=\""@ + sz + "\" viewBox=\"0 0 50 50\">\n  <circle cx=\"25\" cy=\"25\" r=\"20\" fill=\"none\" stroke=\""@ + color;
    let m = "\" stroke-width=\"4\" stroke-dasharray=\"31.4 31.4\" stroke-linecap=\"round\">\n    <animateTransform attributeName=\"transform\" type=\"rotate\" from=\"0 25 25\" to=\"360 25 25\" dur=\"1.2s\" repeatCount=\"indefinite\" />\n  </circle>\n</svg>"@;
    reveal_strlit("\" stroke-width=\"4\" stroke-dasharray=\"31.4 31.4\" stroke-linecap=\"round\">\n    <animateTransform attributeName=\"transform\" type=\"rotate\" from=\"0 25 25\" to=\"360 25 25\" dur=\"1.2s\" repeatCount=\"indefinite\" />\n  </circle>\n</svg>");
    reveal_strlit("type=\"rotate\" from=\"0 25 25\" to=\"360 25 25\" dur=\"1.2s\"");
    let t = dashed_full_turn();
    assert(m.subrange(120, 174) =~= t);
    let markup = spinner_default_markup(color, size);
    assert(markup =~= a + m);
    let i: int = a.len() as int + 120;
    assert(markup.subrange(i, i + 54) =~= m.subrange(120, 174));
    assert(occurs_at(markup, t, i));
}

/// Each spinner style name selects its own picture: `ring` the rotating
/// arc, `dots` the bouncing dots, `bars` the growing bars, and `border`
/// (like any other name) the rotating dashed circle.
pub proof fn lemma_spinner_name_selects_picture(color: Seq<char>, size: nat)
    ensures
        spinner_markup("ring"@, color, size) == spinner_ring_markup(color, size),
        spinner_markup("dots"@, color, size) == spinner_dots_markup(color, size),
        spinner_markup("bars"@, color, size) == spinner_bars_markup(color, size),
        spinner_markup("border"@, color, size) == spinner_default_markup(color, size),
{
    reveal_strlit("ring");
    reveal_strlit("dots");
    reveal_strlit("bars");
    reveal_strlit("border");
    assert("ring"@.len() == 4 && "ring"@[0] == 'r');
    assert("dots"@.len() == 4 && "dots"@[0] == 'd');
    assert("bars"@.len() == 4 && "bars"@[0] == 'b');
    assert("border"@.len() == 6);
}

fn spinner_ring(color: &str, size: u32) -> (r: String)
    ensures
        r@ == spinner_ring_markup(color@, size as nat),
{
    let mut r = String::new();
    push_str(&mut r, "<svg xmlns=\"http://www.w3.org/2000/svg\" width=\"");
    push_decimal(&mut r, size as u64);
    push_str(&mut r, "\" height=\"");
    push_decimal(&mut r, size as u64);
    push_str(&mut r, "\" viewBox=\"0 0 50 50\">\n  <path d=\"M 25 5 A 20 20 0 0 1 45 25\" fill=\"none\" stroke=\"");
    push_str(&mut r, color);
    push_str(&mut r, "\" stroke-width=\"4\" stroke-linecap=\"round\">\n    <animateTransform attributeName=\"transform\" type=\"rotate\" from=\"0 25 25\" to=\"360 25 25\" dur=\"1s\" repeatCount=\"indefinite\" />\n  </path>\n  <circle cx=\"25\" cy=\"25\" r=\"20\" fill=\"none\" stroke=\"");
    push_str(&mut r, color);
    push_str(&mut r, "\" stroke-width=\"4\" opacity=\"0.2\" />\n</svg>");
    r
}

fn spinner_dots(color: &str, size: u32) -> (r: String)
    ensures
        r@ == spinner_dots_markup(color@, size as nat),
{
    let mut r = String::new();
    push_str(&mut r, "<svg xmlns=\"http://www.w3.org/2000/svg\" width=\"");
    push_decimal(&mut r, size as u64);
    push_str(&mut r, "\" height=\"");
    push_decimal(&mut r, size as u64);
    push_str(&mut r, "\" viewBox=\"0 0 120 30\">\n  <circle cx=\"20\" cy=\"15\" r=\"8\" fill=\"");
    push_str(&mut r, color);
    push_str(&mut r, "\">\n    <animate attributeName=\"cy\" values=\"15; 5; 15\" dur=\"1s\" begin=\"0s\" repeatCount=\"indefinite\" />\n    <animate attributeName=\"opacity\" values=\"0.3; 1; 0.3\" dur=\"1s\" begin=\"0s\" repeatCount=\"indefinite\" />\n  </circle>\n  <circle cx=\"60\" cy=\"15\" r=\"8\" fill=\"");
    push_str(&mut r, color);
    push_str(&mut r, "\">\n    <animate attributeName=\"cy\" values=\"15; 5; 15\" dur=\"1s\" begin=\"0.25s\" repeatCount=\"indefinite\" />\n    <animate attributeName=\"opacity\" values=\"0.3; 1; 0.3\" dur=\"1s\" begin=\"0.25s\" repeatCount=\"indefinite\" />\n  </circle>\n  <circle cx=\"100\" cy=\"15\" r=\"8\" fill=\"");
    push_str(&mut r, color);
    push_str(&mut r, "\">\n    <animate attributeName=\"cy\" values=\"15; 5; 15\" dur=\"1s\" begin=\"0.5s\" repeatCount=\"indefinite\" />\n    <animate attributeName=\"opacity\" values=\"0.3; 1; 0.3\" dur=\"1s\" begin=\"0.5s\" repeatCount=\"indefinite\" />\n  </circle>\n</svg>");
    r
}

fn spinner_bars(color: &str, size: u32) -> (r: String)
    ensures
        r@ == spinner_bars_markup(color@, size as nat),
{
    let mut r = String::new();
    push_str(&mut r, "<svg xmlns=\"http://www.w3.org/2000/svg\" width=\"");
    push_decimal(&mut r, size as u64);
    push_str(&mut r, "\" height=\"");
    push_decimal(&mut r, size as u64);
    push_str(&mut r, "\" viewBox=\"0 0 50 50\">\n  <rect x=\"10\" y=\"15\" width=\"6\" height=\"20\" fill=\"");
    push_str(&mut r, color);
    push_str(&mut r, "\">\n    <animate attributeName=\"height\" values=\"20; 40; 20\" dur=\"1s\" begin=\"0s\" repeatCount=\"indefinite\" />\n    <animate attributeName=\"y\" values=\"15; 5; 15\" dur=\"1s\" begin=\"0s\" repeatCount=\"indefinite\" />\n  </rect>\n  <rect x=\"22\" y=\"15\" width=\"6\" height=\"20\" fill=\"");
    push_str(&mut r, color);
    push_str(&mut r, "\">\n    <animate attributeName=\"height\" values=\"20; 40; 20\" dur=\"1s\" begin=\"0.2s\" repeatCount=\"indefinite\" />\n    <animate attributeName=\"y\" values=\"15; 5; 15\" dur=\"1s\" begin=\"0.2s\" repeatCount=\"indefinite\" />\n  </rect>\n  <rect x=\"34\" y=\"15\" width=\"6\" height=\"20\" fill=\"");
    push_str(&mut r, color);
    push_str(&mut r, "\">\n    <animate attributeName=\"height\" values=\"20; 40; 20\" dur=\"1s\" begin=\"0.4s\" repeatCount=\"indefinite\" />\n    <animate attributeName=\"y\" values=\"15; 5; 15\" dur=\"1s\" begin=\"0.4s\" repeatCount=\"indefinite\" />\n  </rect>\n</svg>");
    r
}

fn spinner_default(color: &str, size: u32) -> (r: String)
    ensures
        r@ == spinner_default_markup(color@, size as nat),
{
    let mut r = String::new();
    push_str(&mut r, "<svg xmlns=\"http://www.w3.org/2000/svg\" width=\"");
    push_decimal(&mut r, size as u64);
    push_str(&mut r, "\" height=\"");
    push_decimal(&mut r, size as u64);
    push_str(&mut r, "\" viewBox=\"0 0 50 50\">\n  <circle cx=\"25\" cy=\"25\" r=\"20\" fill=\"none\" stroke=\"");
    push_str(&mut r, color);
    push_str(&mut r, "\" stroke-width=\"4\" stroke-dasharray=\"31.4 31.4\" stroke-linecap=\"round\">\n    <animateTransform attributeName=\"transform\" type=\"rotate\" from=\"0 25 25\" to=\"360 25 25\" dur=\"1.2s\" repeatCount=\"indefinite\" />\n  </circle>\n</svg>");
    r
}

/// The animated spinner SVG for an already lowercased style name.
pub fn spinner_svg_from_lowercase(l: &str, color: &str, size: u32) -> (r: String)
    ensures
        r@ == spinner_markup(l@, color@, size as nat),
{
    if str_eq(l, "ring") {
        spinner_ring(color, size)
    } else if str_eq(l, "dots") {
        spinner_dots(color, size)
    } else if str_eq(l, "bars") {
        spinner_bars(color, size)
    } else {
        spinner_default(color, size)
    }
}

/// The animated loading spinner SVG of style `spinner_type` (compared
/// without regard to case), drawn in `color` at `size` x `size` pixels.
pub fn spinner_svg(spinner_type: &str, color: &str, size: u32) -> (r: String)
    ensures
        r@ == spinner_markup(lowercase(spinner_type@), color@, size as nat),
        is_ascii_text(spinner_type@) ==> r@ == spinner_markup(
            ascii_lowercase(spinner_type@),
            color@,
            size as nat,
        ),
{
    let l = to_lowercase(spinner_type);
    spinner_svg_from_lowercase(l.as_str(), color, size)
}

/// Texts joined with a separator (std `join`).
pub open spec fn joined(parts: Seq<Seq<char>>, sep: Seq<char>) -> Seq<char>
    decreases parts.len(),
{
    if parts.len() == 0 {
        Seq::empty()
    } else if parts.len() == 1 {
        parts[0]
    } else {
        joined(parts.drop_last(), sep) + sep + parts.last()
    }
}

/// An 800 x 600 SVG with the path `from_path` whose `d` attribute cycles
/// through `values` every `duration` seconds.
pub open spec fn morph_markup(from_path: Seq<char>, values: Seq<char>, duration: Seq<char>) -> Seq<char> {
    "<svg xmlns=\"http://www.w3.org/2000/svg\" viewBox=\"0 0 800 600\" width=\"800\" height=\"600\">\n  <path d=\""@
            + from_path
            + "\" fill=\"none\" stroke=\"#8b5cf6\" stroke-width=\"4\">\n    <animate attributeName=\"d\" values=\""@
            + values
            + "\" dur=\""@
            + duration
            + "s\" repeatCount=\"indefinite\" />\n  </path>\n</svg>"@
}

/// The morph animation SVG: the path `from_path` animated through the
/// morph frames (joined with "; ") for `duration` seconds, given as text,
/// repeating indefinitely.
pub fn morph_svg(from_path: &str, frames: &Vec<String>, duration: &str) -> (r: String)
    ensures
        r@ == morph_markup(from_path@, joined(frames@.map_values(|f: String| f@), "; "@), duration@),
{
    let ghost m = frames@.map_values(|f: String| f@);
    let mut values = String::new();
    let mut i: usize = 0;
    while i < frames.len()
        invariant
            i <= frames@.len(),
            m == frames@.map_values(|f: String| f@),
            values@ == joined(m.take(i as int), "; "@),
        decreases frames@.len() - i,
    {
        if i > 0 {
            push_str(&mut values, "; ");
        }
        push_str(&mut values, frames[i].as_str());
        assert(m.take(i + 1).drop_last() =~= m.take(i as int));
        assert(m.take(i + 1).last() == frames@[i as int]@);
        if i == 0 {
            assert(m.take(1) =~= seq![frames@[0]@]);
        }
        assert(values@ =~= joined(m.take(i + 1), "; "@));
        i = i + 1;
    }
    assert(m.take(frames@.len() as int) =~= m);
    let mut r = String::new();
    push_str(&mut r, "<svg xmlns=\"http://www.w3.org/2000/svg\" viewBox=\"0 0 800 600\" width=\"800\" height=\"600\">\n  <path d=\"");
    push_str(&mut r, from_path);
    push_str(&mut r, "\" fill=\"none\" stroke=\"#8b5cf6\" stroke-width=\"4\">\n    <animate attributeName=\"d\" values=\"");
    push_str(&mut r, values.as_str());
    push_str(&mut r, "\" dur=\"");
    push_str(&mut r, duration);
    push_str(&mut r, "s\" repeatCount=\"indefinite\" />\n  </path>\n</svg>");
    r
}

/// The placeholder picture of one auto-refinement round: the round
/// number out of the number of rounds, and the prompt being refined.
pub open spec fn refinement_markup(width: nat, height: nat, round: nat, rounds: nat, prompt: Seq<char>) -> Seq<char> {
    "<svg xmlns=\"http://www.w3.org/2000/svg\" width=\""@
            + decimal(width)
            + "\" height=\""@
            + decimal(height)
            + "\">\n                    <rect width=\"100%\" height=\"100%\" fill=\"#1a1a2e\"/>\n                    <defs>\n                        <linearGradient id=\"grad\" x1=\"0%\" y1=\"0%\" x2=\"100%\" y2=\"100%\">\n                            <stop offset=\"0%\" style=\"stop-color:#0f3460;stop-opacity:1\" />\n                            <stop offset=\"100%\" style=\"stop-color:#e94560;stop-opacity:1\" />\n                        </linearGradient>\n                    </defs>\n                    <rect width=\"90%\" height=\"90%\" x=\"5%\" y=\"5%\" rx=\"15\" ry=\"15\" fill=\"url(#grad)\" opacity=\"0.8\"/>\n                    <text x=\"50%\" y=\"40%\" dominant-baseline=\"middle\" text-anchor=\"middle\" fill=\"#ffffff\" font-family=\"sans-serif\" font-size=\"24\" font-weight=\"bold\">\n                        Auto-Refinement Cycle\n                    </text>\n                    <text x=\"50%\" y=\"50%\" dominant-baseline=\"middle\" text-anchor=\"middle\" fill=\"#e2e8f0\" font-family=\"sans-serif\" font-size=\"18\">\n                        Round "@
            + decimal(round)
            + " / "@
            + decimal(rounds)
            + "\n                    </text>\n                    <text x=\"50%\" y=\"65%\" dominant-baseline=\"middle\" text-anchor=\"middle\" fill=\"#cbd5e1\" font-family=\"sans-serif\" font-size=\"14\" opacity=\"0.9\">\n                        Prompt: "@
            + prompt
            + "\n                    </text>\n                </svg>"@
}

/// The placeholder SVG drawn for auto-refinement round `round` (counted
/// from 0) of `rounds`.
pub fn refinement_svg(width: u32, height: u32, round: u32, rounds: u32, prompt: &str) -> (r: String)
    ensures
        r@ == refinement_markup(width as nat, height as nat, round as nat + 1, rounds as nat, prompt@),
{
    let mut r = String::new();
    push_str(&mut r, "<svg xmlns=\"http://www.w3.org/2000/svg\" width=\"");
    push_decimal(&mut r, width as u64);
    push_str(&mut r, "\" height=\"");
    push_decimal(&mut r, height as u64);
    push_str(&mut r, "\">\n                    <rect width=\"100%\" height=\"100%\" fill=\"#1a1a2e\"/>\n                    <defs>\n                        <linearGradient id=\"grad\" x1=\"0%\" y1=\"0%\" x2=\"100%\" y2=\"100%\">\n                            <stop offset=\"0%\" style=\"stop-color:#0f3460;stop-opacity:1\" />\n                            <stop offset=\"100%\" style=\"stop-color:#e94560;stop-opacity:1\" />\n                        </linearGradient>\n                    </defs>\n                    <rect width=\"90%\" height=\"90%\" x=\"5%\" y=\"5%\" rx=\"15\" ry=\"15\" fill=\"url(#grad)\" opacity=\"0.8\"/>\n                    <text x=\"50%\" y=\"40%\" dominant-baseline=\"middle\" text-anchor=\"middle\" fill=\"#ffffff\" font-family=\"sans-serif\" font-size=\"24\" font-weight=\"bold\">\n                        Auto-Refinement Cycle\n                    </text>\n                    <text x=\"50%\" y=\"50%\" dominant-baseline=\"middle\" text-anchor=\"middle\" fill=\"#e2e8f0\" font-family=\"sans-serif\" font-size=\"18\">\n                        Round ");
    push_decimal(&mut r, round as u64 + 1);
    push_str(&mut r, " / ");
    push_decimal(&mut r, rounds as u64);
    push_str(&mut r, "\n                    </text>\n                    <text x=\"50%\" y=\"65%\" dominant-baseline=\"middle\" text-anchor=\"middle\" fill=\"#cbd5e1\" font-family=\"sans-serif\" font-size=\"14\" opacity=\"0.9\">\n                        Prompt: ");
    push_str(&mut r, prompt);
    push_str(&mut r, "\n                    </text>\n                </svg>");
    r
}


// ---------------------------------------------------------------------
// Output file names
// ---------------------------------------------------------------------

/// A lowercase hexadecimal digit.
pub open spec fn is_lower_hex(c: char) -> bool {
    ('0' <= c && c <= '9') || ('a' <= c && c <= 'f')
}

/// The hyphenated text of a version 7 UUID: 36 characters, hyphens at
/// indices 8, 13, 18 and 23, lowercase hexadecimal digits elsewhere, and
/// the version digit `7` at index 14.
pub open spec fn is_v7_uuid_text(s: Seq<char>) -> bool {
    &&& s.len() == 36
    &&& forall|i: int|
        0 <= i < 36 ==> if i == 8 || i == 13 || i == 18 || i == 23 {
            s[i] == '-'
        } else {
            is_lower_hex(#[trigger] s[i])
        }
    &&& s[14] == '7'
}

/// A fresh identifier: std `to_string` of `uuid::Uuid::now_v7()`, the
/// hyphenated lowercase text of a version 7 UUID made from the current
/// time and random bits. Which identifier comes back is not stated, only
/// its form.
#[verifier::external_body]
fn new_generation_id() -> (id: String)
    ensures
        is_v7_uuid_text(id@),
{
    uuid::Uuid::now_v7().to_string()
}

/// A fresh generation identifier (a version 7 UUID).
pub fn generation_id() -> (id: String)
    ensures
        is_v7_uuid_text(id@),
{
    new_generation_id()
}

/// A fresh output file name: `prefix`, a new generation identifier, a
/// dot and the extension `ext`.
pub fn output_file_name(prefix: &str, ext: &str) -> (r: String)
    ensures
        r@.len() == prefix@.len() + 37 + ext@.len(),
        r@.subrange(0, prefix@.len() as int) == prefix@,
        is_v7_uuid_text(r@.subrange(prefix@.len() as int, (prefix@.len() + 36) as int)),
        r@[(prefix@.len() + 36) as int] == '.',
        r@.subrange((prefix@.len() + 37) as int, r@.len() as int) == ext@,
{
    let id = new_generation_id();
    let mut r = String::from_str(prefix);
    push_str(&mut r, id.as_str());
    push_str(&mut r, ".");
    proof {
        reveal_strlit(".");
    }
    push_str(&mut r, ext);
    assert(r@.subrange(0, prefix@.len() as int) =~= prefix@);
    assert(r@.subrange(prefix@.len() as int, (prefix@.len() + 36) as int) =~= id@);
    assert(r@.subrange((prefix@.len() + 37) as int, r@.len() as int) =~= ext@);
    r
}

} // verus!
