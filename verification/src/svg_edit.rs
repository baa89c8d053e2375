//! Editing of SVG markup: attaching a CSS class to an element, inserting
//! content before the closing `</svg>` tag, and reading the text of a
//! dimension attribute.

use vstd::prelude::*;
use vstd::utf8::*;
use vstd::string::StringSliceAdditionalSpecFns;
use crate::text::{
    chars_of, find_chars, occurs_at, lowercase, to_lowercase, string_from_chars, find_first, find_from, lemma_find_from, lemma_rfind_before, push_chars,
    push_str, rfind_before, rfind_char, slice_chars,
};

verus! {

/// `s` with `t` inserted at index `i`.
pub open spec fn insert_at(s: Seq<char>, i: int, t: Seq<char>) -> Seq<char> {
    s.subrange(0, i) + t + s.subrange(i, s.len() as int)
}

/// `s` without its leading `#` characters (std `trim_start_matches('#')`).
pub open spec fn without_leading_hashes(s: Seq<char>) -> Seq<char>
    decreases s.len(),
{
    if s.len() > 0 && s[0] == '#' {
        without_leading_hashes(s.drop_first())
    } else {
        s
    }
}

/// The attribute text `id="ID"`.
pub open spec fn id_attr_double(id: Seq<char>) -> Seq<char> {
    "id=\""@ + id + "\""@
}

/// The attribute text `id='ID'`.
pub open spec fn id_attr_single(id: Seq<char>) -> Seq<char> {
    "id='"@ + id + "'"@
}

/// Where the element with identifier `id` is named in `svg`: the first
/// `id="ID"` if there is one, else the first `id='ID'`.
pub open spec fn id_position(svg: Seq<char>, id: Seq<char>) -> Option<int> {
    match find_first(svg, id_attr_double(id)) {
        Some(k) => Some(k),
        None => find_first(svg, id_attr_single(id)),
    }
}

/// Where the class text goes inside an opening tag, and what is inserted
/// there: after `class="` or `class='` when the tag has one (the class name
/// and a space), else a new `class` attribute before the first space, or,
/// in a tag without spaces, before the closing `/>` or `>`.
pub open spec fn class_insertion(tag: Seq<char>, class: Seq<char>) -> (int, Seq<char>) {
    match find_first(tag, "class=\""@) {
        Some(c) => (c + "class=\""@.len(), class + " "@),
        None => match find_first(tag, "class='"@) {
            Some(c) => (c + "class='"@.len(), class + " "@),
            None => match find_first(tag, seq![' ']) {
                Some(sp) => (sp, " class=\""@ + class + "\""@),
                None => (
                    if tag.len() >= 2 && tag[tag.len() - 2] == '/' && tag[tag.len() - 1] == '>' {
                        tag.len() - 2
                    } else {
                        tag.len() - 1
                    },
                    " class=\""@ + class + "\" "@,
                ),
            },
        },
    }
}

/// The opening tag that names the element: from the last `<` before the
/// id attribute to the first `>` at or after it (both inclusive).
pub open spec fn tag_bounds(svg: Seq<char>, element_id: Seq<char>) -> Option<(int, int)> {
    match id_position(svg, without_leading_hashes(element_id)) {
        None => None,
        Some(pos) => match rfind_before(svg, '<', pos) {
            None => None,
            Some(start) => match find_from(svg, seq!['>'], pos) {
                None => None,
                Some(end) => Some((start, end)),
            },
        },
    }
}

/// `svg` with `class` added to the class list of the element whose id is
/// `element_id` (leading `#` ignored); `svg` itself when the element or
/// its tag boundaries are not found.
pub open spec fn css_class_injected(svg: Seq<char>, element_id: Seq<char>, class: Seq<char>) -> Seq<
    char,
> {
    match tag_bounds(svg, element_id) {
        None => svg,
        Some((start, end)) => {
            let (ip, ins) = class_insertion(svg.subrange(start, end + 1), class);
            insert_at(svg, start + ip, ins)
        },
    }
}

fn strip_leading_hashes(v: &Vec<char>) -> (r: Vec<char>)
    ensures
        r@ == without_leading_hashes(v@),
{
    let mut i: usize = 0;
    assert(v@.subrange(0, v@.len() as int) =~= v@);
    while i < v.len() && v[i] == '#'
        invariant
            i <= v@.len(),
            without_leading_hashes(v@) == without_leading_hashes(v@.subrange(i as int, v@.len() as int)),
        decreases v@.len() - i,
    {
        assert(v@.subrange(i as int, v@.len() as int).drop_first() =~= v@.subrange(i + 1, v@.len() as int));
        i = i + 1;
    }
    assert(v@.subrange(0, v@.len() as int) =~= v@);
    slice_chars(v, i, v.len())
}

fn concat3(a: &str, b: &Vec<char>, c: &str) -> (r: Vec<char>)
    ensures
        r@ == a@ + b@ + c@,
{
    let mut s = String::new();
    push_str(&mut s, a);
    push_chars(&mut s, b, 0, b.len());
    push_str(&mut s, c);
    assert(b@.subrange(0, b@.len() as int) =~= b@);
    let r = chars_of(s.as_str());
    r
}

/// Adds the CSS class `class_name` to the element of `svg` whose `id`
/// attribute is `element_id` (a leading `#` is ignored). Returns `svg`
/// unchanged when no such element, or no enclosing tag, is found.
pub fn inject_css_class(svg: &str, element_id: &str, class_name: &str) -> (r: String)
    ensures
        r@ == css_class_injected(svg@, element_id@, class_name@),
        tag_bounds(svg@, element_id@) is None ==> r@ == svg@,
        tag_bounds(svg@, element_id@) is Some ==> exists|k: int, ins: Seq<char>|
            #![trigger insert_at(svg@, k, ins)]
            0 <= k <= svg@.len() && r@ == insert_at(svg@, k, ins) && find_first(ins, class_name@) is Some,
{
    let s = chars_of(svg);
    let idv = chars_of(element_id);
    let clean = strip_leading_hashes(&idv);
    let pat_double = concat3("id=\"", &clean, "\"");
    let pat_single = concat3("id='", &clean, "'");
    let found = match find_chars(&s, &pat_double, 0) {
        Some(k) => Some(k),
        None => find_chars(&s, &pat_single, 0),
    };
    let pos = match found {
        Some(p) => p,
        None => {
            return String::from_str(svg);
        },
    };
    proof {
        lemma_find_from(s@, pat_double@, 0);
        lemma_find_from(s@, pat_single@, 0);
    }
    let start = match rfind_char(&s, '<', pos) {
        Some(st) => st,
        None => {
            return String::from_str(svg);
        },
    };
    let gt = chars_of(">");
    proof {
        reveal_strlit(">");
        assert(gt@ =~= seq!['>']);
    }
    let end = match find_chars(&s, &gt, pos) {
        Some(e) => e,
        None => {
            return String::from_str(svg);
        },
    };
    proof {
        lemma_rfind_before(s@, '<', pos as int);
        lemma_find_from(s@, gt@, pos as int);
        assert(occurs_at(s@, gt@, end as int));
        assert(end + 1 <= s@.len());
        assert(s@.len() == s.len());
    }
    let tag = slice_chars(&s, start, end + 1);
    let cdq = chars_of("class=\"");
    let csq = chars_of("class='");
    let sp = chars_of(" ");
    proof {
        reveal_strlit(" ");
        assert(sp@ =~= seq![' ']);
    }
    let mut ins = String::new();
    let ip: usize;
    match find_chars(&tag, &cdq, 0) {
        Some(c) => {
            proof { lemma_find_from(tag@, cdq@, 0); }
            ip = c + cdq.len();
            push_str(&mut ins, class_name);
            push_str(&mut ins, " ");
        },
        None => match find_chars(&tag, &csq, 0) {
            Some(c) => {
                proof { lemma_find_from(tag@, csq@, 0); }
                ip = c + csq.len();
                push_str(&mut ins, class_name);
                push_str(&mut ins, " ");
            },
            None => match find_chars(&tag, &sp, 0) {
                Some(k) => {
                    proof { lemma_find_from(tag@, sp@, 0); }
                    ip = k;
                    push_str(&mut ins, " class=\"");
                    push_str(&mut ins, class_name);
                    push_str(&mut ins, "\"");
                },
                None => {
                    let n = tag.len();
                    if n >= 2 && tag[n - 2] == '/' && tag[n - 1] == '>' {
                        ip = n - 2;
                    } else {
                        ip = n - 1;
                    }
                    push_str(&mut ins, " class=\"");
                    push_str(&mut ins, class_name);
                    push_str(&mut ins, "\" ");
                },
            },
        },
    }
    let k = start + ip;
    let mut r = String::new();
    push_chars(&mut r, &s, 0, k);
    push_str(&mut r, ins.as_str());
    push_chars(&mut r, &s, k, s.len());
    proof {
        let (sip, sins) = class_insertion(tag@, class_name@);
        assert(sip == ip as int);
        assert(sins == ins@);
        assert(r@ =~= insert_at(s@, k as int, ins@));
        assert(find_first(ins@, class_name@) is Some) by {
            lemma_class_in_insertion(ins@, class_name@);
        }
    }
    r
}

proof fn lemma_class_in_insertion(ins: Seq<char>, class: Seq<char>)
    requires
        ins == class + " "@ || ins == " class=\""@ + class + "\""@ || ins == " class=\""@ + class
            + "\" "@,
    ensures
        find_first(ins, class) is Some,
{
    reveal_strlit(" class=\"");
    let k: int = if ins == class + " "@ { 0 } else { " class=\""@.len() as int };
    assert(ins.subrange(k, k + class.len()) =~= class);
    assert(occurs_at(ins, class, k));
    lemma_find_from(ins, class, 0);
}


// ---------------------------------------------------------------------
// Inserting before the closing tag
// ---------------------------------------------------------------------

/// The UTF-8 bytes of `</svg>`.
pub open spec fn close_svg_bytes() -> Seq<u8> {
    seq![60u8, 47u8, 115u8, 118u8, 103u8, 62u8]
}

/// The greatest index `<= i` at which `p` occurs in `s`.
pub open spec fn last_match_from(s: Seq<u8>, p: Seq<u8>, i: int) -> Option<int>
    decreases i + 1,
{
    if i < 0 {
        None
    } else if i + p.len() <= s.len() && s.subrange(i, i + p.len()) == p {
        Some(i)
    } else {
        last_match_from(s, p, i - 1)
    }
}

/// The byte index of the last `</svg>` in the lowercased text of `svg`
/// (std `str::rfind` on the result of `str::to_lowercase`).
pub open spec fn close_tag_index(svg: Seq<char>) -> Option<int> {
    let lb = encode_utf8(lowercase(svg));
    last_match_from(lb, close_svg_bytes(), lb.len() - close_svg_bytes().len())
}

/// Inserting at `close_tag_index` is possible: that byte index, taken in
/// `svg` itself, falls on a character boundary (std `String::insert_str`
/// panics otherwise).
pub open spec fn close_tag_insertable(svg: Seq<char>) -> bool {
    match close_tag_index(svg) {
        Some(i) => is_char_boundary(encode_utf8(svg), i),
        None => true,
    }
}

/// `svg` with `content` inserted at the byte index of its last `</svg>`
/// (found case-insensitively), or appended when there is none.
pub open spec fn close_tag_injected(svg: Seq<char>, content: Seq<char>) -> Seq<char> {
    let b = encode_utf8(svg);
    match close_tag_index(svg) {
        Some(i) => decode_utf8(b.subrange(0, i)) + content + decode_utf8(
            b.subrange(i, b.len() as int),
        ),
        None => svg + content,
    }
}

fn close_svg_pattern() -> (v: Vec<u8>)
    ensures
        v@ == close_svg_bytes(),
{
    let mut v: Vec<u8> = Vec::new();
    v.push(60u8);
    v.push(47u8);
    v.push(115u8);
    v.push(118u8);
    v.push(103u8);
    v.push(62u8);
    assert(v@ =~= close_svg_bytes());
    v
}

fn bytes_match_at(s: &[u8], p: &Vec<u8>, i: usize) -> (r: bool)
    requires
        i + p@.len() <= s@.len(),
    ensures
        r == (s@.subrange(i as int, i + p@.len()) == p@),
{
    let mut j: usize = 0;
    while j < p.len()
        invariant
            i + p@.len() <= s@.len(),
            s@.len() == s.len(),
            j <= p@.len(),
            forall|k: int| 0 <= k < j ==> s@[i + k] == p@[k],
        decreases p@.len() - j,
    {
        assert(i + j < s@.len());
        if s[i + j] != p[j] {
            assert(s@.subrange(i as int, i + p@.len())[j as int] != p@[j as int]);
            return false;
        }
        j = j + 1;
    }
    assert(s@.subrange(i as int, i + p@.len()) =~= p@);
    true
}

fn rfind_bytes(s: &[u8], p: &Vec<u8>) -> (r: Option<usize>)
    ensures
        match r {
            Some(k) => last_match_from(s@, p@, s@.len() - p@.len()) == Some(k as int),
            None => last_match_from(s@, p@, s@.len() - p@.len()) is None,
        },
{
    if p.len() > s.len() {
        return None;
    }
    let mut i = s.len() - p.len();
    loop
        invariant
            i + p@.len() <= s@.len(),
            last_match_from(s@, p@, s@.len() - p@.len()) == last_match_from(s@, p@, i as int),
        decreases i,
    {
        if bytes_match_at(s, p, i) {
            return Some(i);
        }
        if i == 0 {
            assert(last_match_from(s@, p@, -1) is None);
            return None;
        }
        i = i - 1;
    }
}

proof fn lemma_str_chars_from_bytes(x: &str)
    ensures
        x@ == decode_utf8(x.spec_bytes()),
{
    encode_utf8_decode_utf8(x@);
}

/// The byte index of the last `</svg>` of `svg`, found in its lowercased
/// text.
fn find_close_tag(svg: &str) -> (r: Option<usize>)
    ensures
        match r {
            Some(i) => close_tag_index(svg@) == Some(i as int),
            None => close_tag_index(svg@) is None,
        },
{
    let lower = to_lowercase(svg);
    let lb = lower.as_str().as_bytes();
    let pat = close_svg_pattern();
    rfind_bytes(lb, &pat)
}

/// Inserts `content_to_inject` into `svg` before its last closing
/// `</svg>` tag (matched without regard to case), or appends it when
/// there is no closing tag.
pub fn inject_style_or_xml(svg: String, content_to_inject: &str) -> (r: String)
    requires
        close_tag_insertable(svg@),
    ensures
        r@ == close_tag_injected(svg@, content_to_inject@),
{
    match find_close_tag(svg.as_str()) {
        Some(i) => {
            proof {
                encode_utf8_valid_utf8(svg@);
            }
            let (a, b) = svg.as_str().split_at(i);
            let mut r = String::from_str(a);
            push_str(&mut r, content_to_inject);
            push_str(&mut r, b);
            proof {
                lemma_str_chars_from_bytes(a);
                lemma_str_chars_from_bytes(b);
            }
            r
        },
        None => {
            let mut s = svg;
            push_str(&mut s, content_to_inject);
            s
        },
    }
}

/// `inject_style_or_xml` where it can be done; `None` where the closing
/// tag's index, found in the lowercased text, does not fall on a
/// character boundary of `svg` itself.
pub fn try_inject_style_or_xml(svg: String, content_to_inject: &str) -> (r: Option<String>)
    ensures
        r is Some <==> close_tag_insertable(svg@),
        r matches Some(t) ==> t@ == close_tag_injected(svg@, content_to_inject@),
{
    match find_close_tag(svg.as_str()) {
        Some(i) => {
            if svg.as_str().is_char_boundary(i) {
                Some(inject_style_or_xml(svg, content_to_inject))
            } else {
                None
            }
        },
        None => Some(inject_style_or_xml(svg, content_to_inject)),
    }
}

// ---------------------------------------------------------------------
// Attribute text
// ---------------------------------------------------------------------

/// The text between the quotes of the first `NAME="..."` in `svg` (the
/// first match may sit inside a longer attribute name such as
/// `stroke-width`); `None` when there is no such text or no closing quote.
pub open spec fn attribute_text(svg: Seq<char>, name: Seq<char>) -> Option<Seq<char>> {
    let pat = name + "=\""@;
    match find_first(svg, pat) {
        None => None,
        Some(pos) => {
            let start = pos + pat.len();
            match find_from(svg, seq!['"'], start) {
                None => None,
                Some(end) => Some(svg.subrange(start, end)),
            }
        },
    }
}

/// The quoted text of the first `NAME="..."` in `svg`.
pub fn svg_attribute_text(svg: &str, name: &str) -> (r: Option<String>)
    ensures
        match r {
            Some(t) => attribute_text(svg@, name@) == Some(t@),
            None => attribute_text(svg@, name@) is None,
        },
{
    let s = chars_of(svg);
    let mut ps = String::from_str(name);
    push_str(&mut ps, "=\"");
    let pat = chars_of(ps.as_str());
    let pos = match find_chars(&s, &pat, 0) {
        Some(p) => p,
        None => {
            return None;
        },
    };
    proof {
        lemma_find_from(s@, pat@, 0);
        assert(occurs_at(s@, pat@, pos as int));
        assert(s@.len() == s.len());
    }
    let start = pos + pat.len();
    let quote = chars_of("\"");
    proof {
        reveal_strlit("\"");
        assert(quote@ =~= seq!['"']);
    }
    match find_chars(&s, &quote, start) {
        Some(end) => {
            proof {
                lemma_find_from(s@, quote@, start as int);
            }
            let t = slice_chars(&s, start, end);
            Some(string_from_chars(&t))
        },
        None => None,
    }
}

/// A CSS style element holding `css`, indented to sit inside an SVG root.
pub open spec fn style_element(css: Seq<char>) -> Seq<char> {
    "  <style>\n    "@ + css + "\n  </style>\n"@
}

/// The style element that carries CSS keyframes into an SVG document.
pub fn style_block(css: &str) -> (r: String)
    ensures
        r@ == style_element(css@),
{
    let mut r = String::from_str("  <style>\n    ");
    push_str(&mut r, css);
    push_str(&mut r, "\n  </style>\n");
    r
}

/// Animation elements, each on a line of its own indented by two spaces.
pub open spec fn indented_lines(lines: Seq<Seq<char>>) -> Seq<char>
    decreases lines.len(),
{
    if lines.len() == 0 {
        Seq::empty()
    } else {
        indented_lines(lines.drop_last()) + "  "@ + lines.last() + "\n"@
    }
}

/// The block injected into an SVG document for a set of animations: the
/// `head` (a style element, or nothing), then each animation element on
/// a line of its own.
pub fn animation_block(head: &str, elements: &Vec<String>) -> (r: String)
    ensures
        r@ == head@ + indented_lines(elements@.map_values(|e: String| e@)),
{
    let ghost lines = elements@.map_values(|e: String| e@);
    let mut r = String::from_str(head);
    let mut i: usize = 0;
    while i < elements.len()
        invariant
            i <= elements@.len(),
            lines == elements@.map_values(|e: String| e@),
            r@ == head@ + indented_lines(lines.take(i as int)),
        decreases elements@.len() - i,
    {
        push_str(&mut r, "  ");
        push_str(&mut r, elements[i].as_str());
        push_str(&mut r, "\n");
        assert(lines.take(i + 1).drop_last() =~= lines.take(i as int));
        assert(r@ =~= head@ + indented_lines(lines.take(i + 1)));
        i = i + 1;
    }
    assert(lines.take(elements@.len() as int) =~= lines);
    r
}

} // verus!
