use openmedia::svg_edit::{inject_css_class, inject_style_or_xml, svg_attribute_text, try_inject_style_or_xml};
use openmedia::tools::{morph_svg, output_file_name, refinement_svg, spinner_svg};
use openmedia::video::escape_text;

const CIRCLE_SVG: &str = "<svg xmlns=\"http://www.w3.org/2000/svg\" width=\"100\" height=\"100\">\n            <circle id=\"my-circle\" cx=\"50\" cy=\"50\" r=\"40\" fill=\"blue\"/>\n        </svg>";

#[test]
fn css_class_is_added_after_the_tag_name() {
    let out = inject_css_class(CIRCLE_SVG, "my-circle", "pulse_preset");
    assert!(out.contains("<circle class=\"pulse_preset\" id=\"my-circle\""));
    assert_eq!(out.len(), CIRCLE_SVG.len() + " class=\"pulse_preset\"".len());
}

#[test]
fn css_class_ignores_leading_hash() {
    let out = inject_css_class(CIRCLE_SVG, "##my-circle", "spin");
    assert!(out.contains("<circle class=\"spin\" id=\"my-circle\""));
}

#[test]
fn css_class_joins_existing_class_list() {
    let svg = "<svg><rect class=\"box\" id='r1'/></svg>";
    let out = inject_css_class(svg, "r1", "fade");
    assert_eq!(out, "<svg><rect class=\"fade box\" id='r1'/></svg>");
    let svg2 = "<svg><rect class='box' id=\"r1\"/></svg>";
    assert_eq!(inject_css_class(svg2, "r1", "fade"), "<svg><rect class='fade box' id=\"r1\"/></svg>");
}

#[test]
fn css_class_in_tag_without_spaces() {
    assert_eq!(inject_css_class("<g><id=\"x\"/></g>", "x", "c"), "<g><id=\"x\" class=\"c\" /></g>");
    assert_eq!(inject_css_class("<g><id=\"x\"></g>", "x", "c"), "<g><id=\"x\" class=\"c\" ></g>");
}

#[test]
fn css_class_unknown_element_leaves_svg_unchanged() {
    assert_eq!(inject_css_class(CIRCLE_SVG, "other", "spin"), CIRCLE_SVG);
    assert_eq!(inject_css_class("id=\"a\">", "a", "spin"), "id=\"a\">");
    assert_eq!(inject_css_class("<x id=\"a\"", "a", "spin"), "<x id=\"a\"");
}

#[test]
fn style_goes_before_closing_tag() {
    let out = inject_style_or_xml("<svg><g/></svg>".to_string(), "<style>x</style>");
    assert_eq!(out, "<svg><g/><style>x</style></svg>");
    let out2 = inject_style_or_xml("<SVG></SVG>tail".to_string(), "!");
    assert_eq!(out2, "<SVG>!</SVG>tail");
    let out3 = inject_style_or_xml("<svg></svg><svg></svg>".to_string(), "!");
    assert_eq!(out3, "<svg></svg><svg>!</svg>");
}

#[test]
fn style_is_appended_without_closing_tag() {
    let out = inject_style_or_xml("<svg>".to_string(), "<style/>");
    assert_eq!(out, "<svg><style/>");
}

#[test]
fn style_insertion_checked_form() {
    assert_eq!(try_inject_style_or_xml("<svg></svg>".to_string(), "a"), Some("<svg>a</svg>".to_string()));
    // 'Ⱥ' lowercases to a longer encoding: the index found in the
    // lowercased text lands one byte later in the original.
    assert_eq!(try_inject_style_or_xml("Ⱥ</svg>".to_string(), "!"), Some("Ⱥ<!/svg>".to_string()));
}

#[test]
fn attribute_text_of_dimensions() {
    assert_eq!(svg_attribute_text(CIRCLE_SVG, "width"), Some("100".to_string()));
    assert_eq!(svg_attribute_text(CIRCLE_SVG, "height"), Some("100".to_string()));
    assert_eq!(svg_attribute_text("<svg stroke-width=\"4\" width=\"9\">", "width"), Some("4".to_string()));
    assert_eq!(svg_attribute_text("<svg>", "width"), None);
    assert_eq!(svg_attribute_text("<svg width=\"12", "width"), None);
}

#[test]
fn spinner_ring_markup() {
    let svg = spinner_svg("RING", "#ff0000", 80);
    assert!(svg.starts_with("<svg xmlns=\"http://www.w3.org/2000/svg\" width=\"80\" height=\"80\" viewBox=\"0 0 50 50\">"));
    assert!(svg.contains("stroke=\"#ff0000\""));
    assert!(svg.contains("<animateTransform"));
    assert!(svg.ends_with("opacity=\"0.2\" />\n</svg>"));
}

#[test]
fn spinner_styles() {
    assert_eq!(spinner_svg("dots", "red", 10).matches("<circle").count(), 3);
    assert_eq!(spinner_svg("bars", "red", 10).matches("<rect").count(), 3);
    let border = spinner_svg("border", "#123456", 60);
    assert_eq!(border, "<svg xmlns=\"http://www.w3.org/2000/svg\" width=\"60\" height=\"60\" viewBox=\"0 0 50 50\">\n  <circle cx=\"25\" cy=\"25\" r=\"20\" fill=\"none\" stroke=\"#123456\" stroke-width=\"4\" stroke-dasharray=\"31.4 31.4\" stroke-linecap=\"round\">\n    <animateTransform attributeName=\"transform\" type=\"rotate\" from=\"0 25 25\" to=\"360 25 25\" dur=\"1.2s\" repeatCount=\"indefinite\" />\n  </circle>\n</svg>");
    assert_eq!(spinner_svg("unknown", "#123456", 60), border);
}

#[test]
fn morph_markup_joins_frames() {
    let frames = vec!["M 0 0".to_string(), "M 1 1".to_string()];
    let svg = morph_svg("M 0 0 L 10 10", &frames, "4");
    assert!(svg.contains("<path d=\"M 0 0 L 10 10\""));
    assert!(svg.contains("<animate attributeName=\"d\" values=\"M 0 0; M 1 1\" dur=\"4s\""));
    let empty = morph_svg("M 0 0", &Vec::new(), "3");
    assert!(empty.contains("values=\"\" dur=\"3s\""));
}

#[test]
fn refinement_placeholder_counts_rounds_from_one() {
    let svg = refinement_svg(512, 256, 0, 3, "a cat");
    assert!(svg.starts_with("<svg xmlns=\"http://www.w3.org/2000/svg\" width=\"512\" height=\"256\">"));
    assert!(svg.contains("Round 1 / 3"));
    assert!(svg.contains("Prompt: a cat"));
}

#[test]
fn output_file_names_are_fresh_uuid_v7() {
    let a = output_file_name("", "png");
    let b = output_file_name("trimmed_", "mp4");
    assert_eq!(a.len(), 40);
    assert!(a.ends_with(".png"));
    let id = &a[..36];
    for (i, c) in id.chars().enumerate() {
        if i == 8 || i == 13 || i == 18 || i == 23 {
            assert_eq!(c, '-');
        } else {
            assert!(c.is_ascii_hexdigit() && !c.is_ascii_uppercase());
        }
    }
    assert_eq!(id.chars().nth(14), Some('7'));
    assert!(b.starts_with("trimmed_"));
    assert!(b.ends_with(".mp4"));
    assert_ne!(&a[..36], &b[8..44]);
}

#[test]
fn escaping_text_content() {
    assert_eq!(escape_text("a < b && c > d"), "a &lt; b &amp;&amp; c &gt; d");
    assert_eq!(escape_text("&lt;"), "&amp;lt;");
    assert_eq!(escape_text("plain"), "plain");
    assert!(!escape_text("<<>>").contains('<'));
}
