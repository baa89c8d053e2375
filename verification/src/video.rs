//! Video scene vocabulary and the text pieces of scene rendering: element
//! anchors, transition names, escaping, document wrappers, audio filter
//! graphs and output formats.

use vstd::prelude::*;
use crate::error::OpenMediaError;
use crate::text::{
    ascii_lowercase, chars_of, decimal, is_ascii_text, lowercase, push_char, push_decimal, push_signed_decimal, push_str,
    signed_decimal, str_eq, to_lowercase,
};

verus! {

/// The point of an element that its position refers to.
#[derive(Debug, Clone, Copy, PartialEq, Eq, Structural)]
pub enum Anchor {
    TopLeft,
    TopCenter,
    TopRight,
    CenterLeft,
    Center,
    CenterRight,
    BottomLeft,
    BottomCenter,
    BottomRight,
}

/// How an image fills its box.
#[derive(Debug, Clone, Copy, PartialEq, Eq, Structural)]
pub enum ObjectFit {
    Cover,
    Contain,
    Fill,
    ScaleDown,
}

/// The shapes a shape element can draw.
#[derive(Debug, Clone, Copy, PartialEq, Eq, Structural)]
pub enum ShapeType {
    Rect,
    RoundedRect,
    Circle,
    Ellipse,
    Polygon,
    Line,
}

/// Transition between two scenes.
#[derive(Debug, Clone, Copy, PartialEq, Eq, Structural)]
pub enum TransitionType {
    /// No transition (`none`).
    NoTransition,
    Crossfade,
    SlideLeft,
    SlideRight,
    SlideUp,
    SlideDown,
    ZoomIn,
    ZoomOut,
    WipeLeft,
    WipeRight,
    WipeUp,
    WipeDown,
    Dissolve,
    IrisIn,
    IrisOut,
}

/// The kinds of element a scene can hold.
#[derive(Debug, Clone, Copy, PartialEq, Eq, Structural)]
pub enum SceneElementKind {
    Text,
    Image,
    Shape,
    Svg,
    Group,
    Html,
    Code,
    Chart,
}

/// Renders frames that always fail: no backend.
pub struct DummyFrameRenderer;

/// Renders frames by rasterizing an SVG picture of the scene.
pub struct SvgFrameRenderer;

impl DummyFrameRenderer {
    /// A renderer without a backend.
    pub fn new() -> (r: DummyFrameRenderer) {
        DummyFrameRenderer
    }

    /// The renderer's name, "dummy".
    pub fn name(&self) -> (r: &'static str)
        ensures
            r@ == "dummy"@,
    {
        "dummy"
    }

    /// What rendering a frame gives: the backend is unavailable.
    pub fn render_frame(&self) -> (r: Result<(), OpenMediaError>)
        ensures
            r matches Err(OpenMediaError::BackendUnavailable(m)) && m@ == "Dummy frame renderer"@,
    {
        Err(OpenMediaError::BackendUnavailable(String::from_str("Dummy frame renderer")))
    }
}

impl Default for DummyFrameRenderer {
    /// A renderer without a backend.
    fn default() -> (r: DummyFrameRenderer)
        ensures
            r == DummyFrameRenderer,
    {
        DummyFrameRenderer::new()
    }
}

impl SvgFrameRenderer {
    /// The renderer's name, "svg".
    pub fn name(&self) -> (r: &'static str)
        ensures
            r@ == "svg"@,
    {
        "svg"
    }
}

// ---------------------------------------------------------------------
// Names
// ---------------------------------------------------------------------

/// The transition a lowercased name selects; unknown names select a
/// crossfade.
pub open spec fn transition_named(l: Seq<char>) -> TransitionType {
    if l == "none"@ {
        TransitionType::NoTransition
    } else if l == "crossfade"@ {
        TransitionType::Crossfade
    } else if l == "slide_left"@ {
        TransitionType::SlideLeft
    } else if l == "slide_right"@ {
        TransitionType::SlideRight
    } else if l == "slide_up"@ {
        TransitionType::SlideUp
    } else if l == "slide_down"@ {
        TransitionType::SlideDown
    } else if l == "wipe_left"@ {
        TransitionType::WipeLeft
    } else if l == "wipe_right"@ {
        TransitionType::WipeRight
    } else {
        TransitionType::Crossfade
    }
}

/// The transition named by an already lowercased name.
pub fn transition_from_lowercase(l: &str) -> (r: TransitionType)
    ensures
        r == transition_named(l@),
{
    if str_eq(l, "none") {
        TransitionType::NoTransition
    } else if str_eq(l, "crossfade") {
        TransitionType::Crossfade
    } else if str_eq(l, "slide_left") {
        TransitionType::SlideLeft
    } else if str_eq(l, "slide_right") {
        TransitionType::SlideRight
    } else if str_eq(l, "slide_up") {
        TransitionType::SlideUp
    } else if str_eq(l, "slide_down") {
        TransitionType::SlideDown
    } else if str_eq(l, "wipe_left") {
        TransitionType::WipeLeft
    } else if str_eq(l, "wipe_right") {
        TransitionType::WipeRight
    } else {
        TransitionType::Crossfade
    }
}

/// The name of each transition: its variant name in snake_case, `none`
/// for no transition.
pub open spec fn transition_snake_name(t: TransitionType) -> Seq<char> {
    match t {
        TransitionType::NoTransition => "none"@,
        TransitionType::Crossfade => "crossfade"@,
        TransitionType::SlideLeft => "slide_left"@,
        TransitionType::SlideRight => "slide_right"@,
        TransitionType::SlideUp => "slide_up"@,
        TransitionType::SlideDown => "slide_down"@,
        TransitionType::ZoomIn => "zoom_in"@,
        TransitionType::ZoomOut => "zoom_out"@,
        TransitionType::WipeLeft => "wipe_left"@,
        TransitionType::WipeRight => "wipe_right"@,
        TransitionType::WipeUp => "wipe_up"@,
        TransitionType::WipeDown => "wipe_down"@,
        TransitionType::Dissolve => "dissolve"@,
        TransitionType::IrisIn => "iris_in"@,
        TransitionType::IrisOut => "iris_out"@,
    }
}

/// The transitions that can be asked for by name; the others (zooms,
/// vertical wipes, dissolve, irises) are drawn as a crossfade.
pub open spec fn is_named_transition(t: TransitionType) -> bool {
    ||| t == TransitionType::NoTransition
    ||| t == TransitionType::Crossfade
    ||| t == TransitionType::SlideLeft
    ||| t == TransitionType::SlideRight
    ||| t == TransitionType::SlideUp
    ||| t == TransitionType::SlideDown
    ||| t == TransitionType::WipeLeft
    ||| t == TransitionType::WipeRight
}

/// Every transition name selects the transition of that name: `none`,
/// `crossfade`, the four slides and the two horizontal wipes select
/// themselves, and the name of any other transition selects a crossfade.
pub proof fn lemma_transition_name_selects_transition(t: TransitionType)
    ensures
        transition_named(transition_snake_name(t)) == (if is_named_transition(t) {
            t
        } else {
            TransitionType::Crossfade
        }),
{
    reveal_strlit("none");
    reveal_strlit("crossfade");
    reveal_strlit("slide_left");
    reveal_strlit("slide_right");
    reveal_strlit("slide_up");
    reveal_strlit("slide_down");
    reveal_strlit("zoom_in");
    reveal_strlit("zoom_out");
    reveal_strlit("wipe_left");
    reveal_strlit("wipe_right");
    reveal_strlit("wipe_up");
    reveal_strlit("wipe_down");
    reveal_strlit("dissolve");
    reveal_strlit("iris_in");
    reveal_strlit("iris_out");
    // Names of one length tell apart at one of these positions.
    assert("none"@[0] == 'n' && "none"@[1] == 'o');
    assert("crossfade"@[0] == 'c' && "crossfade"@[1] == 'r' && "crossfade"@[5] == 'f' && "crossfade"@[6] == 'a');
    assert("slide_left"@[0] == 's' && "slide_left"@[1] == 'l' && "slide_left"@[5] == '_' && "slide_left"@[6] == 'l');
    assert("slide_right"@[0] == 's' && "slide_right"@[1] == 'l' && "slide_right"@[5] == '_' && "slide_right"@[6] == 'r');
    assert("slide_up"@[0] == 's' && "slide_up"@[1] == 'l' && "slide_up"@[5] == '_' && "slide_up"@[6] == 'u');
    assert("slide_down"@[0] == 's' && "slide_down"@[1] == 'l' && "slide_down"@[5] == '_' && "slide_down"@[6] == 'd');
    assert("zoom_in"@[0] == 'z' && "zoom_in"@[1] == 'o' && "zoom_in"@[5] == 'i' && "zoom_in"@[6] == 'n');
    assert("zoom_out"@[0] == 'z' && "zoom_out"@[1] == 'o' && "zoom_out"@[5] == 'o' && "zoom_out"@[6] == 'u');
    assert("wipe_left"@[0] == 'w' && "wipe_left"@[1] == 'i' && "wipe_left"@[5] == 'l' && "wipe_left"@[6] == 'e');
    assert("wipe_right"@[0] == 'w' && "wipe_right"@[1] == 'i' && "wipe_right"@[5] == 'r' && "wipe_right"@[6] == 'i');
    assert("wipe_up"@[0] == 'w' && "wipe_up"@[1] == 'i' && "wipe_up"@[5] == 'u' && "wipe_up"@[6] == 'p');
    assert("wipe_down"@[0] == 'w' && "wipe_down"@[1] == 'i' && "wipe_down"@[5] == 'd' && "wipe_down"@[6] == 'o');
    assert("dissolve"@[0] == 'd' && "dissolve"@[1] == 'i' && "dissolve"@[5] == 'l' && "dissolve"@[6] == 'v');
    assert("iris_in"@[0] == 'i' && "iris_in"@[1] == 'r' && "iris_in"@[5] == 'i' && "iris_in"@[6] == 'n');
    assert("iris_out"@[0] == 'i' && "iris_out"@[1] == 'r' && "iris_out"@[5] == 'o' && "iris_out"@[6] == 'u');
}

/// The transition named by `name`, compared without regard to case.
pub fn parse_transition_type(name: &str) -> (r: TransitionType)
    ensures
        r == transition_named(lowercase(name@)),
        is_ascii_text(name@) ==> r == transition_named(ascii_lowercase(name@)),
{
    let l = to_lowercase(name);
    transition_from_lowercase(l.as_str())
}

/// The SVG `text-anchor` value for an anchor.
pub open spec fn svg_text_anchor(a: Anchor) -> Seq<char> {
    match a {
        Anchor::TopLeft | Anchor::CenterLeft | Anchor::BottomLeft => "start"@,
        Anchor::TopCenter | Anchor::Center | Anchor::BottomCenter => "middle"@,
        Anchor::TopRight | Anchor::CenterRight | Anchor::BottomRight => "end"@,
    }
}

/// The CSS `text-align` value for an anchor.
pub open spec fn html_text_align(a: Anchor) -> Seq<char> {
    match a {
        Anchor::TopLeft | Anchor::CenterLeft | Anchor::BottomLeft => "left"@,
        Anchor::TopCenter | Anchor::Center | Anchor::BottomCenter => "center"@,
        Anchor::TopRight | Anchor::CenterRight | Anchor::BottomRight => "right"@,
    }
}

/// The column of an anchor: 0 for the left column, 1 for the centre
/// column, 2 for the right column.
pub open spec fn anchor_column(a: Anchor) -> int {
    match a {
        Anchor::TopLeft => 0,
        Anchor::CenterLeft => 0,
        Anchor::BottomLeft => 0,
        Anchor::TopCenter => 1,
        Anchor::Center => 1,
        Anchor::BottomCenter => 1,
        Anchor::TopRight => 2,
        Anchor::CenterRight => 2,
        Anchor::BottomRight => 2,
    }
}

/// Text is aligned by the column of its anchor, in SVG and in HTML alike:
/// a left anchor starts the text at its position (`start`, `left`), a
/// centre anchor centres it (`middle`, `center`), a right anchor ends it
/// there (`end`, `right`); so the SVG anchor is `start` exactly when the
/// HTML alignment is `left`, `middle` exactly when `center`, `end`
/// exactly when `right`.
pub proof fn lemma_text_alignment_follows_anchor_column(a: Anchor)
    ensures
        anchor_column(a) == 0 ==> svg_text_anchor(a) == "start"@ && html_text_align(a) == "left"@,
        anchor_column(a) == 1 ==> svg_text_anchor(a) == "middle"@ && html_text_align(a)
            == "center"@,
        anchor_column(a) == 2 ==> svg_text_anchor(a) == "end"@ && html_text_align(a) == "right"@,
        svg_text_anchor(a) == "start"@ <==> html_text_align(a) == "left"@,
        svg_text_anchor(a) == "middle"@ <==> html_text_align(a) == "center"@,
        svg_text_anchor(a) == "end"@ <==> html_text_align(a) == "right"@,
{
    reveal_strlit("start");
    reveal_strlit("middle");
    reveal_strlit("end");
    reveal_strlit("left");
    reveal_strlit("center");
    reveal_strlit("right");
    assert("start"@[0] == 's' && "middle"@[0] == 'm' && "end"@[0] == 'e');
    assert("left"@[0] == 'l' && "center"@[0] == 'c' && "right"@[0] == 'r');
}

/// The SVG `text-anchor` value for `anchor`.
pub fn text_anchor(anchor: Anchor) -> (r: &'static str)
    ensures
        r@ == svg_text_anchor(anchor),
{
    match anchor {
        Anchor::TopLeft | Anchor::CenterLeft | Anchor::BottomLeft => "start",
        Anchor::TopCenter | Anchor::Center | Anchor::BottomCenter => "middle",
        Anchor::TopRight | Anchor::CenterRight | Anchor::BottomRight => "end",
    }
}

/// The CSS `text-align` value for `anchor`.
pub fn text_align(anchor: Anchor) -> (r: &'static str)
    ensures
        r@ == html_text_align(anchor),
{
    match anchor {
        Anchor::TopLeft | Anchor::CenterLeft | Anchor::BottomLeft => "left",
        Anchor::TopCenter | Anchor::Center | Anchor::BottomCenter => "center",
        Anchor::TopRight | Anchor::CenterRight | Anchor::BottomRight => "right",
    }
}

// ---------------------------------------------------------------------
// Escaping
// ---------------------------------------------------------------------

/// The escaped form of one character of text content.
pub open spec fn escape_of(c: char) -> Seq<char> {
    if c == '&' {
        "&amp;"@
    } else if c == '<' {
        "&lt;"@
    } else if c == '>' {
        "&gt;"@
    } else {
        seq![c]
    }
}

/// Text content with `&`, `<` and `>` replaced by their entities.
pub open spec fn escaped(s: Seq<char>) -> Seq<char>
    decreases s.len(),
{
    if s.len() == 0 {
        Seq::empty()
    } else {
        escaped(s.drop_last()) + escape_of(s.last())
    }
}

proof fn lemma_escape_of_has_no_brackets(c: char)
    ensures
        forall|i: int| 0 <= i < escape_of(c).len() ==> escape_of(c)[i] != '<' && escape_of(c)[i] != '>',
{
    reveal_strlit("&amp;");
    reveal_strlit("&lt;");
    reveal_strlit("&gt;");
}

/// Escaped text holds no angle bracket, so it cannot open or close a tag.
pub proof fn lemma_escaped_has_no_brackets(s: Seq<char>)
    ensures
        forall|i: int|
            0 <= i < escaped(s).len() ==> escaped(s)[i] != '<' && escaped(s)[i] != '>',
    decreases s.len(),
{
    if s.len() > 0 {
        lemma_escaped_has_no_brackets(s.drop_last());
        lemma_escape_of_has_no_brackets(s.last());
        let a = escaped(s.drop_last());
        let b = escape_of(s.last());
        assert forall|i: int| 0 <= i < escaped(s).len() implies escaped(s)[i] != '<' && escaped(
            s,
        )[i] != '>' by {
            if i < a.len() {
                assert(escaped(s)[i] == a[i]);
            } else {
                assert(escaped(s)[i] == b[i - a.len()]);
            }
        }
    }
}

/// `content` with `&`, `<` and `>` written as `&amp;`, `&lt;` and `&gt;`
/// (std `str::replace`, applied for `&` first).
pub fn escape_text(content: &str) -> (r: String)
    ensures
        r@ == escaped(content@),
        forall|i: int| 0 <= i < r@.len() ==> r@[i] != '<' && r@[i] != '>',
{
    let v = chars_of(content);
    let mut r = String::new();
    let mut i: usize = 0;
    while i < v.len()
        invariant
            i <= v@.len(),
            v@ == content@,
            r@ == escaped(v@.take(i as int)),
        decreases v@.len() - i,
    {
        let c = v[i];
        if c == '&' {
            push_str(&mut r, "&amp;");
        } else if c == '<' {
            push_str(&mut r, "&lt;");
        } else if c == '>' {
            push_str(&mut r, "&gt;");
        } else {
            push_char(&mut r, c);
        }
        assert(v@.take(i + 1).drop_last() =~= v@.take(i as int));
        assert(r@ =~= escaped(v@.take(i + 1)));
        i = i + 1;
    }
    assert(v@.take(v@.len() as int) =~= v@);
    proof {
        lemma_escaped_has_no_brackets(content@);
    }
    r
}

// ---------------------------------------------------------------------
// Scene documents
// ---------------------------------------------------------------------

/// The opening of a scene's SVG picture: the root element with the frame
/// size as width, height and view box, then a background rectangle.
pub open spec fn scene_svg_head(width: nat, height: nat, background: Seq<char>) -> Seq<char> {
    "<svg xmlns=\"http://www.w3.org/2000/svg\" width=\""@ + decimal(width) + "\" height=\""@
        + decimal(height) + "\" viewBox=\"0 0 "@ + decimal(width) + " "@ + decimal(height)
        + "\">"@ + "<rect width=\"100%\" height=\"100%\" fill=\""@ + background + "\"/>"@
}

/// The concatenation of a list of texts.
pub open spec fn concat_all(parts: Seq<Seq<char>>) -> Seq<char>
    decreases parts.len(),
{
    if parts.len() == 0 {
        Seq::empty()
    } else {
        concat_all(parts.drop_last()) + parts.last()
    }
}

/// The SVG picture of a scene frame: its opening, the rendered elements
/// in order, and the closing tag.
pub fn scene_svg_document(width: u32, height: u32, background: &str, elements: &Vec<String>) -> (r:
    String)
    ensures
        r@ == scene_svg_head(width as nat, height as nat, background@) + concat_all(
            elements@.map_values(|e: String| e@),
        ) + "</svg>"@,
{
    let mut svg = String::new();
    push_str(&mut svg, "<svg xmlns=\"http://www.w3.org/2000/svg\" width=\"");
    push_decimal(&mut svg, width as u64);
    push_str(&mut svg, "\" height=\"");
    push_decimal(&mut svg, height as u64);
    push_str(&mut svg, "\" viewBox=\"0 0 ");
    push_decimal(&mut svg, width as u64);
    push_str(&mut svg, " ");
    push_decimal(&mut svg, height as u64);
    push_str(&mut svg, "\">");
    push_str(&mut svg, "<rect width=\"100%\" height=\"100%\" fill=\"");
    push_str(&mut svg, background);
    push_str(&mut svg, "\"/>");
    let ghost head = svg@;
    assert(head =~= scene_svg_head(width as nat, height as nat, background@));
    let mut i: usize = 0;
    while i < elements.len()
        invariant
            i <= elements@.len(),
            svg@ == head + concat_all(elements@.map_values(|e: String| e@).take(i as int)),
        decreases elements@.len() - i,
    {
        push_str(&mut svg, elements[i].as_str());
        let ghost m = elements@.map_values(|e: String| e@);
        assert(m.take(i + 1).drop_last() =~= m.take(i as int));
        assert(m.take(i + 1).last() == elements@[i as int]@);
        assert(svg@ =~= head + concat_all(m.take(i + 1)));
        i = i + 1;
    }
    let ghost m = elements@.map_values(|e: String| e@);
    assert(m.take(elements@.len() as int) =~= m);
    push_str(&mut svg, "</svg>");
    svg
}

/// Whether any element of any scene needs a browser to be drawn (HTML or
/// code cards).
pub open spec fn scenes_need_browser(scenes: Seq<Seq<SceneElementKind>>) -> bool {
    exists|i: int, j: int|
        0 <= i < scenes.len() && 0 <= j < scenes[i].len() && (scenes[i][j]
            == SceneElementKind::Html || scenes[i][j] == SceneElementKind::Code)
}

/// Whether rendering the scenes, given by the kinds of their elements,
/// needs a browser.
pub fn needs_browser(scenes: &Vec<Vec<SceneElementKind>>) -> (r: bool)
    ensures
        r == scenes_need_browser(scenes@.map_values(|s: Vec<SceneElementKind>| s@)),
{
    let ghost m = scenes@.map_values(|s: Vec<SceneElementKind>| s@);
    let mut i: usize = 0;
    while i < scenes.len()
        invariant
            i <= scenes@.len(),
            m == scenes@.map_values(|s: Vec<SceneElementKind>| s@),
            forall|a: int, b: int|
                0 <= a < i && 0 <= b < m[a].len() ==> m[a][b] != SceneElementKind::Html && m[a][b]
                    != SceneElementKind::Code,
        decreases scenes@.len() - i,
    {
        let s = &scenes[i];
        let mut j: usize = 0;
        while j < s.len()
            invariant
                i < scenes@.len(),
                j <= s@.len(),
                s@ == m[i as int],
                m == scenes@.map_values(|s: Vec<SceneElementKind>| s@),
                forall|b: int|
                    0 <= b < j ==> m[i as int][b] != SceneElementKind::Html && m[i as int][b]
                        != SceneElementKind::Code,
            decreases s@.len() - j,
        {
            let k = s[j];
            if k == SceneElementKind::Html || k == SceneElementKind::Code {
                assert(m[i as int][j as int] == k);
                return true;
            }
            j = j + 1;
        }
        i = i + 1;
    }
    false
}

// ---------------------------------------------------------------------
// Audio filter graphs
// ---------------------------------------------------------------------

/// The filter chain of audio input `idx`: delayed by `delay` ms on both
/// channels and scaled by `volume`.
pub open spec fn track_filter(idx: nat, delay: int, volume: Seq<char>) -> Seq<char> {
    "["@ + decimal(idx) + ":a]adelay="@ + signed_decimal(delay) + "|"@ + signed_decimal(delay)
        + ",volume="@ + volume + "[a"@ + decimal(idx) + "];"@
}

/// The chains of the first `n` tracks (inputs 1 to `n`).
pub open spec fn track_filters(delays: Seq<i32>, volumes: Seq<Seq<char>>, n: nat) -> Seq<char>
    decreases n,
{
    if n == 0 {
        Seq::empty()
    } else {
        track_filters(delays, volumes, (n - 1) as nat) + track_filter(
            n,
            delays[n - 1] as int,
            volumes[n - 1],
        )
    }
}

/// The labels `[a1]` to `[an]`.
pub open spec fn track_labels(n: nat) -> Seq<char>
    decreases n,
{
    if n == 0 {
        Seq::empty()
    } else {
        track_labels((n - 1) as nat) + "[a"@ + decimal(n) + "]"@
    }
}

/// The filter graph that mixes audio tracks into the video's sound:
/// each track delayed and scaled, then all mixed for the length of the
/// first input.
pub open spec fn audio_mix_graph(delays: Seq<i32>, volumes: Seq<Seq<char>>) -> Seq<char> {
    let n = delays.len();
    track_filters(delays, volumes, n) + track_labels(n) + "amix=inputs="@ + decimal(n)
        + ":duration=first[out_a]"@
}

/// The audio filter graph for tracks with the given delays (ms) and
/// volume texts.
pub fn audio_mix_filter(delays_ms: &Vec<i32>, volumes: &Vec<String>) -> (r: String)
    requires
        delays_ms@.len() == volumes@.len(),
    ensures
        r@ == audio_mix_graph(delays_ms@, volumes@.map_values(|v: String| v@)),
{
    let ghost vs = volumes@.map_values(|v: String| v@);
    let n = delays_ms.len();
    let mut r = String::new();
    let mut i: usize = 0;
    while i < n
        invariant
            i <= n == delays_ms@.len() == volumes@.len(),
            vs == volumes@.map_values(|v: String| v@),
            r@ == track_filters(delays_ms@, vs, i as nat),
        decreases n - i,
    {
        let idx = (i + 1) as u64;
        push_str(&mut r, "[");
        push_decimal(&mut r, idx);
        push_str(&mut r, ":a]adelay=");
        push_signed_decimal(&mut r, delays_ms[i] as i64);
        push_str(&mut r, "|");
        push_signed_decimal(&mut r, delays_ms[i] as i64);
        push_str(&mut r, ",volume=");
        push_str(&mut r, volumes[i].as_str());
        push_str(&mut r, "[a");
        push_decimal(&mut r, idx);
        push_str(&mut r, "];");
        assert(vs[i as int] == volumes@[i as int]@);
        assert(r@ =~= track_filters(delays_ms@, vs, (i + 1) as nat));
        i = i + 1;
    }
    let ghost filters = r@;
    let mut j: usize = 0;
    while j < n
        invariant
            j <= n,
            r@ == filters + track_labels(j as nat),
        decreases n - j,
    {
        push_str(&mut r, "[a");
        push_decimal(&mut r, (j + 1) as u64);
        push_str(&mut r, "]");
        assert(r@ =~= filters + track_labels((j + 1) as nat));
        j = j + 1;
    }
    push_str(&mut r, "amix=inputs=");
    push_decimal(&mut r, n as u64);
    push_str(&mut r, ":duration=first[out_a]");
    r
}

/// The filter graph that mixes one added track (input 1) into a video's
/// own sound (input 0).
pub open spec fn added_track_graph(delay: int, volume: Seq<char>) -> Seq<char> {
    "[1:a]adelay="@ + signed_decimal(delay) + "|"@ + signed_decimal(delay) + ",volume="@ + volume
        + "[a1];[0:a][a1]amix=inputs=2:duration=first[out_a]"@
}

/// The filter graph for adding one audio track, delayed by `delay_ms`
/// and scaled by the volume text, to a video that has sound.
pub fn added_track_filter(delay_ms: i32, volume: &str) -> (r: String)
    ensures
        r@ == added_track_graph(delay_ms as int, volume@),
{
    let mut r = String::new();
    push_str(&mut r, "[1:a]adelay=");
    push_signed_decimal(&mut r, delay_ms as i64);
    push_str(&mut r, "|");
    push_signed_decimal(&mut r, delay_ms as i64);
    push_str(&mut r, ",volume=");
    push_str(&mut r, volume);
    push_str(&mut r, "[a1];[0:a][a1]amix=inputs=2:duration=first[out_a]");
    r
}

// ---------------------------------------------------------------------
// Output formats
// ---------------------------------------------------------------------

/// The image formats frames and screenshots are written in.
#[derive(Debug, Clone, Copy, PartialEq, Eq, Structural)]
pub enum FrameFormat {
    Png,
    Jpeg,
    Webp,
}

/// The frame format a lowercased format name selects, if any.
pub open spec fn frame_format_named(l: Seq<char>) -> Option<FrameFormat> {
    if l == "png"@ {
        Some(FrameFormat::Png)
    } else if l == "jpeg"@ || l == "jpg"@ {
        Some(FrameFormat::Jpeg)
    } else if l == "webp"@ {
        Some(FrameFormat::Webp)
    } else {
        None
    }
}

/// Each frame format name and the format it names.
pub open spec fn frame_format_table() -> Seq<(Seq<char>, Option<FrameFormat>)> {
    seq![
        ("png"@, Some(FrameFormat::Png)),
        ("jpeg"@, Some(FrameFormat::Jpeg)),
        ("jpg"@, Some(FrameFormat::Jpeg)),
        ("webp"@, Some(FrameFormat::Webp)),
    ]
}

/// Every frame format name of the table selects the format it names.
pub proof fn lemma_frame_format_name_selects_format(k: int)
    requires
        0 <= k < frame_format_table().len(),
    ensures
        frame_format_named(frame_format_table()[k].0) == frame_format_table()[k].1,
{
    reveal_strlit("jpeg");
    reveal_strlit("jpg");
    reveal_strlit("png");
    reveal_strlit("webp");
    assert("jpeg"@.len() == 4 && "jpeg"@[0] == 'j' && "jpeg"@[1] == 'p' && "jpeg"@[2] == 'e' && "jpeg"@[3] == 'g');
    assert("jpg"@.len() == 3 && "jpg"@[0] == 'j' && "jpg"@[1] == 'p' && "jpg"@[2] == 'g');
    assert("png"@.len() == 3 && "png"@[0] == 'p' && "png"@[1] == 'n' && "png"@[2] == 'g');
    assert("webp"@.len() == 4 && "webp"@[0] == 'w' && "webp"@[1] == 'e' && "webp"@[2] == 'b' && "webp"@[3] == 'p');
    if k == 0 {
        assert(frame_format_table()[k] == ("png"@, Some(FrameFormat::Png)));
        assert(frame_format_named("png"@) == Some(FrameFormat::Png));
    } else if k == 1 {
        assert(frame_format_table()[k] == ("jpeg"@, Some(FrameFormat::Jpeg)));
        assert(frame_format_named("jpeg"@) == Some(FrameFormat::Jpeg));
    } else if k == 2 {
        assert(frame_format_table()[k] == ("jpg"@, Some(FrameFormat::Jpeg)));
        assert(frame_format_named("jpg"@) == Some(FrameFormat::Jpeg));
    } else if k == 3 {
        assert(frame_format_table()[k] == ("webp"@, Some(FrameFormat::Webp)));
        assert(frame_format_named("webp"@) == Some(FrameFormat::Webp));
    }
}

/// The frame format named by an already lowercased name.
pub fn frame_format_from_lowercase(l: &str) -> (r: Option<FrameFormat>)
    ensures
        r == frame_format_named(l@),
{
    if str_eq(l, "png") {
        Some(FrameFormat::Png)
    } else if str_eq(l, "jpeg") || str_eq(l, "jpg") {
        Some(FrameFormat::Jpeg)
    } else if str_eq(l, "webp") {
        Some(FrameFormat::Webp)
    } else {
        None
    }
}

/// The screenshot format named by `format` (png, jpeg/jpg or webp, in any
/// case); other names are an invalid `output_format` parameter.
pub fn screenshot_format(format: &str) -> (r: Result<FrameFormat, OpenMediaError>)
    ensures
        match frame_format_named(lowercase(format@)) {
            Some(f) => r == Ok::<FrameFormat, OpenMediaError>(f),
            None => r matches Err(OpenMediaError::InvalidParameter { param, reason })
                && param@ == "output_format"@ && reason@ == "Unsupported screenshot format: "@
                + lowercase(format@),
        },
{
    let l = to_lowercase(format);
    match frame_format_from_lowercase(l.as_str()) {
        Some(f) => Ok(f),
        None => {
            let mut reason = String::from_str("Unsupported screenshot format: ");
            push_str(&mut reason, l.as_str());
            Err(OpenMediaError::InvalidParameter { param: String::from_str("output_format"), reason })
        },
    }
}

/// The format of a preview frame named by `format` (png, jpeg/jpg or
/// webp, in any case); other names are refused with a message.
pub fn preview_format(format: &str) -> (r: Result<FrameFormat, String>)
    ensures
        match frame_format_named(lowercase(format@)) {
            Some(f) => r == Ok::<FrameFormat, String>(f),
            None => r matches Err(m) && m@ == "Unsupported preview output format: "@ + lowercase(
                format@,
            ),
        },
{
    let l = to_lowercase(format);
    match frame_format_from_lowercase(l.as_str()) {
        Some(f) => Ok(f),
        None => {
            let mut m = String::from_str("Unsupported preview output format: ");
            push_str(&mut m, l.as_str());
            Err(m)
        },
    }
}

/// Whether a file extension, in any case, is one a slideshow takes images
/// from (png, jpg, jpeg, webp).
pub fn is_slideshow_image_extension(ext: &str) -> (r: bool)
    ensures
        r == (lowercase(ext@) == "png"@ || lowercase(ext@) == "jpg"@ || lowercase(ext@)
            == "jpeg"@ || lowercase(ext@) == "webp"@),
{
    let l = to_lowercase(ext);
    str_eq(l.as_str(), "png") || str_eq(l.as_str(), "jpg") || str_eq(l.as_str(), "jpeg")
        || str_eq(l.as_str(), "webp")
}

/// Whether a target path names a scene description (it ends in `.json`)
/// rather than a video file.
pub fn names_scene_file(path: &str) -> (r: bool)
    ensures
        r == (path@.len() >= ".json"@.len() && path@.subrange(
            path@.len() - ".json"@.len(),
            path@.len() as int,
        ) == ".json"@),
{
    let p = chars_of(path);
    let suffix = chars_of(".json");
    if p.len() < suffix.len() {
        return false;
    }
    let off = p.len() - suffix.len();
    let mut i: usize = 0;
    while i < suffix.len()
        invariant
            off + suffix@.len() == p@.len(),
            p@.len() == p.len(),
            p@ == path@,
            suffix@ == ".json"@,
            i <= suffix@.len(),
            forall|k: int| 0 <= k < i ==> p@[off + k] == suffix@[k],
        decreases suffix@.len() - i,
    {
        if p[off + i] != suffix[i] {
            assert(p@.subrange(off as int, p@.len() as int)[i as int] != suffix@[i as int]);
            return false;
        }
        i = i + 1;
    }
    assert(p@.subrange(off as int, p@.len() as int) =~= suffix@);
    true
}

// ---------------------------------------------------------------------
// Keyframes and dimensions
// ---------------------------------------------------------------------

/// How progress between two keyframes is eased.
#[derive(Debug, Clone, Copy, PartialEq, Eq, Structural)]
pub enum KeyframeEasing {
    Linear,
    EaseIn,
    EaseOut,
    EaseInOut,
}

/// The easing a lowercased keyframe easing name selects; unknown names
/// keep progress linear.
pub open spec fn keyframe_easing_named(l: Seq<char>) -> KeyframeEasing {
    if l == "ease_in"@ || l == "ease-in"@ {
        KeyframeEasing::EaseIn
    } else if l == "ease_out"@ || l == "ease-out"@ {
        KeyframeEasing::EaseOut
    } else if l == "ease_in_out"@ || l == "ease-in-out"@ {
        KeyframeEasing::EaseInOut
    } else {
        KeyframeEasing::Linear
    }
}

/// Each keyframe easing name and the easing it names.
pub open spec fn keyframe_easing_table() -> Seq<(Seq<char>, KeyframeEasing)> {
    seq![
        ("linear"@, KeyframeEasing::Linear),
        ("ease_in"@, KeyframeEasing::EaseIn),
        ("ease-in"@, KeyframeEasing::EaseIn),
        ("ease_out"@, KeyframeEasing::EaseOut),
        ("ease-out"@, KeyframeEasing::EaseOut),
        ("ease_in_out"@, KeyframeEasing::EaseInOut),
        ("ease-in-out"@, KeyframeEasing::EaseInOut),
    ]
}

/// Every keyframe easing name of the table selects the easing it names.
pub proof fn lemma_keyframe_easing_name_selects_easing(k: int)
    requires
        0 <= k < keyframe_easing_table().len(),
    ensures
        keyframe_easing_named(keyframe_easing_table()[k].0) == keyframe_easing_table()[k].1,
{
    reveal_strlit("ease-in");
    reveal_strlit("ease-in-out");
    reveal_strlit("ease-out");
    reveal_strlit("ease_in");
    reveal_strlit("ease_in_out");
    reveal_strlit("ease_out");
    reveal_strlit("linear");
    assert("ease-in"@.len() == 7 && "ease-in"@[0] == 'e' && "ease-in"@[1] == 'a' && "ease-in"@[2] == 's' && "ease-in"@[3] == 'e' && "ease-in"@[4] == '-' && "ease-in"@[5] == 'i' && "ease-in"@[6] == 'n');
    assert("ease-in-out"@.len() == 11 && "ease-in-out"@[0] == 'e' && "ease-in-out"@[1] == 'a' && "ease-in-out"@[2] == 's' && "ease-in-out"@[3] == 'e' && "ease-in-out"@[4] == '-' && "ease-in-out"@[5] == 'i' && "ease-in-out"@[6] == 'n' && "ease-in-out"@[7] == '-' && "ease-in-out"@[8] == 'o' && "ease-in-out"@[9] == 'u' && "ease-in-out"@[10] == 't');
    assert("ease-out"@.len() == 8 && "ease-out"@[0] == 'e' && "ease-out"@[1] == 'a' && "ease-out"@[2] == 's' && "ease-out"@[3] == 'e' && "ease-out"@[4] == '-' && "ease-out"@[5] == 'o' && "ease-out"@[6] == 'u' && "ease-out"@[7] == 't');
    assert("ease_in"@.len() == 7 && "ease_in"@[0] == 'e' && "ease_in"@[1] == 'a' && "ease_in"@[2] == 's' && "ease_in"@[3] == 'e' && "ease_in"@[4] == '_' && "ease_in"@[5] == 'i' && "ease_in"@[6] == 'n');
    assert("ease_in_out"@.len() == 11 && "ease_in_out"@[0] == 'e' && "ease_in_out"@[1] == 'a' && "ease_in_out"@[2] == 's' && "ease_in_out"@[3] == 'e' && "ease_in_out"@[4] == '_' && "ease_in_out"@[5] == 'i' && "ease_in_out"@[6] == 'n' && "ease_in_out"@[7] == '_' && "ease_in_out"@[8] == 'o' && "ease_in_out"@[9] == 'u' && "ease_in_out"@[10] == 't');
    assert("ease_out"@.len() == 8 && "ease_out"@[0] == 'e' && "ease_out"@[1] == 'a' && "ease_out"@[2] == 's' && "ease_out"@[3] == 'e' && "ease_out"@[4] == '_' && "ease_out"@[5] == 'o' && "ease_out"@[6] == 'u' && "ease_out"@[7] == 't');
    assert("linear"@.len() == 6 && "linear"@[0] == 'l' && "linear"@[1] == 'i' && "linear"@[2] == 'n' && "linear"@[3] == 'e' && "linear"@[4] == 'a' && "linear"@[5] == 'r');
    if k == 0 {
        assert(keyframe_easing_table()[k] == ("linear"@, KeyframeEasing::Linear));
        assert(keyframe_easing_named("linear"@) == KeyframeEasing::Linear);
    } else if k == 1 {
        assert(keyframe_easing_table()[k] == ("ease_in"@, KeyframeEasing::EaseIn));
        assert(keyframe_easing_named("ease_in"@) == KeyframeEasing::EaseIn);
    } else if k == 2 {
        assert(keyframe_easing_table()[k] == ("ease-in"@, KeyframeEasing::EaseIn));
        assert(keyframe_easing_named("ease-in"@) == KeyframeEasing::EaseIn);
    } else if k == 3 {
        assert(keyframe_easing_table()[k] == ("ease_out"@, KeyframeEasing::EaseOut));
        assert(keyframe_easing_named("ease_out"@) == KeyframeEasing::EaseOut);
    } else if k == 4 {
        assert(keyframe_easing_table()[k] == ("ease-out"@, KeyframeEasing::EaseOut));
        assert(keyframe_easing_named("ease-out"@) == KeyframeEasing::EaseOut);
    } else if k == 5 {
        assert(keyframe_easing_table()[k] == ("ease_in_out"@, KeyframeEasing::EaseInOut));
        assert(keyframe_easing_named("ease_in_out"@) == KeyframeEasing::EaseInOut);
    } else if k == 6 {
        assert(keyframe_easing_table()[k] == ("ease-in-out"@, KeyframeEasing::EaseInOut));
        assert(keyframe_easing_named("ease-in-out"@) == KeyframeEasing::EaseInOut);
    }
}

/// The keyframe easing named by an already lowercased name.
pub fn keyframe_easing_from_lowercase(l: &str) -> (r: KeyframeEasing)
    ensures
        r == keyframe_easing_named(l@),
{
    if str_eq(l, "ease_in") || str_eq(l, "ease-in") {
        KeyframeEasing::EaseIn
    } else if str_eq(l, "ease_out") || str_eq(l, "ease-out") {
        KeyframeEasing::EaseOut
    } else if str_eq(l, "ease_in_out") || str_eq(l, "ease-in-out") {
        KeyframeEasing::EaseInOut
    } else {
        KeyframeEasing::Linear
    }
}

/// The keyframe easing named by `name`, compared without regard to case.
pub fn parse_keyframe_easing(name: &str) -> (r: KeyframeEasing)
    ensures
        r == keyframe_easing_named(lowercase(name@)),
{
    let l = to_lowercase(name);
    keyframe_easing_from_lowercase(l.as_str())
}

/// `s` without its trailing `%` signs (std `trim_end_matches('%')`).
pub open spec fn without_percent_signs(s: Seq<char>) -> Seq<char>
    decreases s.len(),
{
    if s.len() > 0 && s.last() == '%' {
        without_percent_signs(s.drop_last())
    } else {
        s
    }
}

/// Whether a dimension is written as a percentage of the frame: it ends
/// with `%`.
pub fn is_percentage(dimension: &str) -> (r: bool)
    ensures
        r == (dimension@.len() > 0 && dimension@.last() == '%'),
{
    let v = chars_of(dimension);
    v.len() > 0 && v[v.len() - 1] == '%'
}

/// The number part of a percentage: `dimension` without its trailing `%`
/// signs.
pub fn percentage_number(dimension: &str) -> (r: String)
    ensures
        r@ == without_percent_signs(dimension@),
{
    let v = chars_of(dimension);
    let mut end: usize = v.len();
    assert(v@.subrange(0, end as int) =~= v@);
    while end > 0 && v[end - 1] == '%'
        invariant
            end <= v@.len(),
            v@ == dimension@,
            without_percent_signs(v@) == without_percent_signs(v@.subrange(0, end as int)),
        decreases end,
    {
        assert(v@.subrange(0, end as int).drop_last() =~= v@.subrange(0, end - 1));
        end = end - 1;
    }
    let mut r = String::new();
    crate::text::push_chars(&mut r, &v, 0, end);
    assert(r@ =~= v@.subrange(0, end as int));
    r
}

// ---------------------------------------------------------------------
// Scene transitions
// ---------------------------------------------------------------------

/// The transitions of `s`, in order, other than those from scene `from`
/// to scene `to`; each transition is its source scene, its target scene
/// and what the transition does.
pub open spec fn transitions_other_than<T>(s: Seq<(String, String, T)>, from: Seq<char>, to: Seq<char>) -> Seq<
    (String, String, T),
> {
    s.filter(|e: (String, String, T)| !(e.0@ == from && e.1@ == to))
}

/// The transitions of a scene after the transition from scene `from` to
/// scene `to` is set to `t`: any earlier transition between the same two
/// scenes is dropped, the others keep their order, and the new one comes
/// last.
pub fn set_transition<T>(transitions: Vec<(String, String, T)>, from: String, to: String, t: T) -> (r:
    Vec<(String, String, T)>)
    ensures
        r@ == transitions_other_than(transitions@, from@, to@).push((from, to, t)),
{
    let ghost orig = transitions@;
    let ghost keep = |e: (String, String, T)| !(e.0@ == from@ && e.1@ == to@);
    let mut rest = transitions;
    let mut r: Vec<(String, String, T)> = Vec::new();
    assert(orig.take(0).filter(keep) =~= Seq::<(String, String, T)>::empty()) by {
        reveal_with_fuel(Seq::<_>::filter, 1);
    }
    while rest.len() > 0
        invariant
            rest@.len() <= orig.len(),
            rest@ == orig.skip(orig.len() - rest@.len()),
            r@ == orig.take(orig.len() - rest@.len()).filter(keep),
            keep == (|e: (String, String, T)| !(e.0@ == from@ && e.1@ == to@)),
        decreases rest@.len(),
    {
        let ghost k = orig.len() - rest@.len();
        let e = rest.remove(0);
        assert(e == orig[k]);
        assert(orig.take(k + 1).drop_last() =~= orig.take(k));
        assert(orig.take(k + 1).last() == orig[k]);
        assert(rest@ =~= orig.skip(k + 1));
        proof {
            reveal_with_fuel(Seq::<_>::filter, 1);
        }
        if !(str_eq(e.0.as_str(), from.as_str()) && str_eq(e.1.as_str(), to.as_str())) {
            r.push(e);
        }
        assert(r@ =~= orig.take(k + 1).filter(keep));
    }
    assert(orig.take(orig.len() as int) =~= orig);
    r.push((from, to, t));
    r
}

proof fn lemma_filter_push_dropped<T>(s: Seq<(String, String, T)>, from: Seq<char>, to: Seq<char>, e: (
    String,
    String,
    T,
))
    requires
        e.0@ == from && e.1@ == to,
    ensures
        transitions_other_than(s.push(e), from, to) == transitions_other_than(s, from, to),
{
    reveal_with_fuel(Seq::<_>::filter, 1);
    assert(s.push(e).drop_last() =~= s);
}

proof fn lemma_filter_idempotent<T>(s: Seq<(String, String, T)>, from: Seq<char>, to: Seq<char>)
    ensures
        transitions_other_than(transitions_other_than(s, from, to), from, to)
            == transitions_other_than(s, from, to),
    decreases s.len(),
{
    reveal_with_fuel(Seq::<_>::filter, 1);
    if s.len() > 0 {
        let f = |e: (String, String, T)| !(e.0@ == from && e.1@ == to);
        lemma_filter_idempotent(s.drop_last(), from, to);
        let inner = transitions_other_than(s.drop_last(), from, to);
        if f(s.last()) {
            assert(transitions_other_than(s, from, to) == inner.push(s.last()));
            assert(inner.push(s.last()).drop_last() =~= inner);
        } else {
            assert(transitions_other_than(s, from, to) == inner);
        }
    }
}

/// Setting the transition between two scenes leaves exactly one
/// transition between them, the one just set, and it comes last; setting
/// it again replaces it, as if the first setting had not happened.
pub proof fn lemma_transition_set_once<T>(
    s: Seq<(String, String, T)>,
    from: String,
    to: String,
    first: T,
    second: T,
)
    ensures
        ({
            let once = transitions_other_than(s, from@, to@).push((from, to, first));
            &&& once.last() == (from, to, first)
            &&& forall|i: int|
                0 <= i < once.len() - 1 ==> !((#[trigger] once[i]).0@ == from@ && once[i].1@ == to@)
            &&& transitions_other_than(once, from@, to@).push((from, to, second))
                == transitions_other_than(s, from@, to@).push((from, to, second))
        }),
{
    broadcast use vstd::seq_lib::group_filter_ensures;

    let kept = transitions_other_than(s, from@, to@);
    let once = kept.push((from, to, first));
    assert forall|i: int| 0 <= i < once.len() - 1 implies !((#[trigger] once[i]).0@ == from@
        && once[i].1@ == to@) by {
        assert(once[i] == kept[i]);
    }
    lemma_filter_push_dropped(kept, from@, to@, (from, to, first));
    lemma_filter_idempotent(s, from@, to@);
}

} // verus!
