use openmedia::animate::morph_vertex_pairs;
use openmedia::error::OpenMediaError;
use openmedia::chart::{scene_chart_type, ChartType};
use openmedia::commands::{encode_args, frame_args, mux_audio_args, trim_args};
use openmedia::markup::{
    html_block, html_code, html_image, html_layer, html_shape, html_svg, html_text,
    html_transition_styles, scene_html_page, svg_group, svg_image, svg_shape, svg_text,
    ElementSize, Placement, TransitionAmounts,
};
use openmedia::requests::{explainer_slides, slideshow_links};
use openmedia::svg_edit::{animation_block, style_block};
use openmedia::video::{
    is_percentage, parse_keyframe_easing, percentage_number, set_transition, Anchor,
    KeyframeEasing, ShapeType, TransitionType,
};

fn placement(x: f64, y: f64) -> Placement {
    Placement {
        opacity: 0.5f64.to_string(),
        x: x.to_string(),
        y: y.to_string(),
        rotation: 45.0f64.to_string(),
        scale_x: 1.0f64.to_string(),
        scale_y: 2.0f64.to_string(),
    }
}

fn size(w: f64, h: f64) -> ElementSize {
    ElementSize { width: w.to_string(), height: h.to_string() }
}

#[test]
fn svg_rect_turns_about_its_centre() {
    let r = svg_shape(
        ShapeType::Rect,
        &size(100.0, 50.0),
        "50",
        None,
        Some("#ff0000"),
        None,
        None,
        &placement(60.0, 35.0),
        "-50",
        "-25",
    );
    assert_eq!(
        r,
        "<rect x=\"0\" y=\"0\" width=\"100\" height=\"50\" rx=\"0\" fill=\"#ff0000\" stroke=\"none\" stroke-width=\"0\" opacity=\"0.5\" transform=\"translate(60, 35) rotate(45) scale(1, 2) translate(-50, -25)\"/>"
    );
}

#[test]
fn svg_circle_and_other_shapes() {
    let c = svg_shape(
        ShapeType::Circle,
        &size(20.0, 20.0),
        "10",
        None,
        None,
        Some("#000"),
        Some("1.5"),
        &placement(10.0, 10.0),
        "-10",
        "-10",
    );
    assert_eq!(
        c,
        "<circle cx=\"0\" cy=\"0\" r=\"10\" fill=\"none\" stroke=\"#000\" stroke-width=\"1.5\" opacity=\"0.5\" transform=\"translate(10, 10) rotate(45) scale(1, 2)\"/>"
    );
    let e = svg_shape(
        ShapeType::Ellipse,
        &size(20.0, 20.0),
        "10",
        None,
        None,
        None,
        None,
        &placement(0.0, 0.0),
        "0",
        "0",
    );
    assert_eq!(e, "");
}

#[test]
fn svg_text_is_escaped() {
    let t = svg_text("#fff", "serif", "24", 700, Anchor::Center, &placement(5.0, 29.0), "a<b & c>");
    assert_eq!(
        t,
        "<text x=\"0\" y=\"0\" fill=\"#fff\" font-family=\"serif\" font-size=\"24\" font-weight=\"700\" text-anchor=\"middle\" opacity=\"0.5\" transform=\"translate(5, 29) rotate(45) scale(1, 2)\">a&lt;b &amp; c&gt;</text>"
    );
}

#[test]
fn svg_image_and_group() {
    let i = svg_image("pic.png", &size(10.0, 20.0), &placement(5.0, 10.0), "-5", "-10");
    assert_eq!(
        i,
        "<image href=\"pic.png\" x=\"0\" y=\"0\" width=\"10\" height=\"20\" opacity=\"0.5\" transform=\"translate(5, 10) rotate(45) scale(1, 2) translate(-5, -10)\"/>"
    );
    let g = svg_group(&placement(1.0, 2.0), "-3", "-4", "<circle/>");
    assert_eq!(
        g,
        "<g opacity=\"0.5\" transform=\"translate(1, 2) rotate(45) scale(1, 2) translate(-3, -4)\"><circle/></g>"
    );
}

#[test]
fn html_text_keeps_content() {
    let t = html_text("sans-serif", "32", "#ccc", 400, Anchor::TopRight, &placement(200.0, 300.0), "<b>x</b>");
    assert_eq!(
        t,
        "<div class=\"element\" style=\"left: 200px; top: 300px; opacity: 0.5; transform: rotate(45deg) scale(1, 2); font-family: sans-serif; font-size: 32px; color: #ccc; font-weight: 400; text-align: right;\"><b>x</b></div>"
    );
}

#[test]
fn html_image_covers_its_box() {
    let i = html_image("a.png", &size(640.0, 360.0), &placement(0.0, 0.0));
    assert_eq!(
        i,
        "<img class=\"element\" src=\"a.png\" style=\"left: 0px; top: 0px; width: 640px; height: 360px; opacity: 0.5; transform: rotate(45deg) scale(1, 2); object-fit: cover;\"/>"
    );
}

#[test]
fn html_shapes_round_their_corners() {
    let circle = html_shape(ShapeType::Circle, &size(10.0, 10.0), None, None, None, None, &placement(1.0, 1.0));
    assert_eq!(
        circle,
        "<div class=\"element\" style=\"left: 1px; top: 1px; width: 10px; height: 10px; opacity: 0.5; transform: rotate(45deg) scale(1, 2); background-color: transparent; border: 0px solid none; border-radius: 50%;\"></div>"
    );
    let rounded = html_shape(
        ShapeType::RoundedRect,
        &size(10.0, 10.0),
        None,
        Some("red"),
        Some("blue"),
        Some("2"),
        &placement(1.0, 1.0),
    );
    assert!(rounded.ends_with("background-color: red; border: 2px solid blue; border-radius: 4px;\"></div>"));
    let rect = html_shape(ShapeType::Rect, &size(10.0, 10.0), Some("8"), None, None, None, &placement(1.0, 1.0));
    assert!(rect.ends_with("border: 0px solid none; \"></div>"));
}

#[test]
fn html_svg_with_and_without_size() {
    let sized = html_svg(Some(&size(30.0, 40.0)), &placement(1.0, 2.0), "<svg/>");
    assert_eq!(
        sized,
        "<div class=\"element\" style=\"left: 1px; top: 2px; width: 30px; height: 40px; opacity: 0.5; transform: rotate(45deg) scale(1, 2);\"><svg/></div>"
    );
    let bare = html_svg(None, &placement(1.0, 2.0), "<svg/>");
    assert_eq!(
        bare,
        "<div class=\"element\" style=\"left: 1px; top: 2px;   opacity: 0.5; transform: rotate(45deg) scale(1, 2);\"><svg/></div>"
    );
}

#[test]
fn html_blocks_and_code() {
    let b = html_block(&size(5.0, 6.0), &placement(1.0, 2.0), "<p>hi</p>");
    assert_eq!(
        b,
        "<div class=\"element\" style=\"left: 1px; top: 2px; width: 5px; height: 6px; opacity: 0.5; transform: rotate(45deg) scale(1, 2);\"><p>hi</p></div>"
    );
    let c = html_code(&size(5.0, 6.0), &placement(1.0, 2.0), "14", "fn main() {}");
    assert_eq!(
        c,
        "<pre class=\"element\" style=\"left: 1px; top: 2px; width: 5px; height: 6px; opacity: 0.5; transform: rotate(45deg) scale(1, 2); font-size: 14px; overflow: auto; background: #282c34; color: #abb2bf; padding: 10px; border-radius: 4px; margin: 0;\"><code>fn main() {}</code></pre>"
    );
}

#[test]
fn html_page_wraps_the_body() {
    let page = scene_html_page(640, 480, "#123456", "<p/>");
    assert!(page.starts_with("<!DOCTYPE html>\n<html>\n<head>\n<style>\n  body {\n    margin: 0;\n    padding: 0;\n    width: 640px;\n    height: 480px;\n    background-color: #123456;\n"));
    assert!(page.ends_with("</style>\n</head>\n<body><p/></body></html>"));
    let layer = html_layer("opacity: 1;", "<p/>");
    assert_eq!(layer, "<div style=\"position: absolute; width: 100%; height: 100%; opacity: 1;\"><p/></div>");
}

fn amounts() -> TransitionAmounts {
    TransitionAmounts {
        fade_out: "0.75".to_string(),
        fade_in: "0.25".to_string(),
        shift_x_out: "160".to_string(),
        shift_x_in: "480".to_string(),
        shift_y_out: "120".to_string(),
        shift_y_in: "360".to_string(),
    }
}

#[test]
fn transition_styles_per_type() {
    let a = amounts();
    assert_eq!(
        html_transition_styles(TransitionType::SlideLeft, &a),
        ("transform: translateX(-160px);".to_string(), "transform: translateX(480px);".to_string())
    );
    assert_eq!(
        html_transition_styles(TransitionType::SlideRight, &a),
        ("transform: translateX(160px);".to_string(), "transform: translateX(-480px);".to_string())
    );
    assert_eq!(
        html_transition_styles(TransitionType::SlideUp, &a),
        ("transform: translateY(-120px);".to_string(), "transform: translateY(360px);".to_string())
    );
    assert_eq!(
        html_transition_styles(TransitionType::SlideDown, &a),
        ("transform: translateY(120px);".to_string(), "transform: translateY(-360px);".to_string())
    );
    assert_eq!(
        html_transition_styles(TransitionType::Crossfade, &a),
        ("opacity: 0.75;".to_string(), "opacity: 0.25;".to_string())
    );
    assert_eq!(
        html_transition_styles(TransitionType::WipeLeft, &a),
        ("opacity: 0.75;".to_string(), "opacity: 0.25;".to_string())
    );
}

#[test]
fn keyframe_easings_by_name() {
    assert_eq!(parse_keyframe_easing("ease_in"), KeyframeEasing::EaseIn);
    assert_eq!(parse_keyframe_easing("Ease-Out"), KeyframeEasing::EaseOut);
    assert_eq!(parse_keyframe_easing("EASE_IN_OUT"), KeyframeEasing::EaseInOut);
    assert_eq!(parse_keyframe_easing("ease-in-out"), KeyframeEasing::EaseInOut);
    assert_eq!(parse_keyframe_easing("bounce"), KeyframeEasing::Linear);
}

#[test]
fn percentages() {
    assert!(is_percentage("50%"));
    assert!(!is_percentage("50"));
    assert!(!is_percentage(""));
    assert_eq!(percentage_number("50%"), "50");
    assert_eq!(percentage_number("12.5%%"), "12.5");
    assert_eq!(percentage_number("7"), "7");
}

#[test]
fn scene_chart_types() {
    assert_eq!(scene_chart_type("LINE"), ChartType::Line);
    assert_eq!(scene_chart_type("pie"), ChartType::Pie);
    assert_eq!(scene_chart_type("bar"), ChartType::Bar);
    assert_eq!(scene_chart_type("radar"), ChartType::Bar);
}

#[test]
fn explainer_slides_accumulate_bullets() {
    let bullets = vec!["one".to_string(), "two".to_string()];
    let slides = explainer_slides("Title", &bullets, 1921);
    assert_eq!(slides.len(), 3);
    assert_eq!(slides[0].len(), 1);
    assert_eq!(slides[0][0].content, "Title");
    assert_eq!((slides[0][0].x, slides[0][0].y, slides[0][0].is_title), (960, 150, true));
    assert_eq!(slides[2].len(), 3);
    assert_eq!(slides[2][1].content, "• one");
    assert_eq!((slides[2][1].x, slides[2][1].y, slides[2][1].is_title), (200, 300, false));
    assert_eq!(slides[2][2].content, "• two");
    assert_eq!(slides[2][2].y, 380);
    assert_eq!(explainer_slides("T", &vec![], 100).len(), 1);
}

#[test]
fn slideshow_links_chain_the_slides() {
    let links = slideshow_links(3);
    assert_eq!(
        links,
        vec![
            ("slide_0".to_string(), "slide_1".to_string()),
            ("slide_1".to_string(), "slide_2".to_string()),
        ]
    );
    assert!(slideshow_links(1).is_empty());
    assert!(slideshow_links(0).is_empty());
}

#[test]
fn style_and_animation_blocks() {
    assert_eq!(style_block("@keyframes a {}"), "  <style>\n    @keyframes a {}\n  </style>\n");
    let els = vec!["<animate/>".to_string(), "<set/>".to_string()];
    assert_eq!(animation_block("", &els), "  <animate/>\n  <set/>\n");
    assert_eq!(animation_block("X", &vec![]), "X");
}

#[test]
fn morph_vertices_pair_up_and_collapse_onto_the_last() {
    assert_eq!(morph_vertex_pairs(2, 2).unwrap(), vec![(0, 0), (1, 1)]);
    assert_eq!(morph_vertex_pairs(1, 3).unwrap(), vec![(0, 0), (0, 1), (0, 2)]);
    assert_eq!(morph_vertex_pairs(4, 2).unwrap(), vec![(0, 0), (1, 1), (2, 1), (3, 1)]);
}

#[test]
fn a_path_without_vertices_cannot_be_morphed() {
    match morph_vertex_pairs(0, 3) {
        Err(OpenMediaError::InvalidParameter { param, reason }) => {
            assert_eq!(param, "from_path");
            assert_eq!(reason, "Path data has no vertices");
        }
        _ => panic!("expected an error"),
    }
    match morph_vertex_pairs(2, 0) {
        Err(OpenMediaError::InvalidParameter { param, reason }) => {
            assert_eq!(param, "to_path");
            assert_eq!(reason, "Path data has no vertices");
        }
        _ => panic!("expected an error"),
    }
}

#[test]
fn ffmpeg_argument_lists() {
    assert_eq!(
        encode_args(30, "out.mp4"),
        vec!["-y", "-f", "image2pipe", "-vcodec", "mjpeg", "-r", "30", "-i", "-", "-c:v", "libx264", "-pix_fmt", "yuv420p", "-crf", "23", "-preset", "medium", "out.mp4"]
    );
    assert_eq!(
        mux_audio_args("v.mp4", &vec!["a.mp3".to_string(), "b.mp3".to_string()], "F", "o.mp4"),
        vec!["-y", "-i", "v.mp4", "-i", "a.mp3", "-i", "b.mp3", "-filter_complex", "F", "-map", "0:v", "-map", "[out_a]", "-c:v", "copy", "-c:a", "aac", "o.mp4"]
    );
    assert_eq!(
        trim_args("1.5", "3", "in.mp4", "out.mp4"),
        vec!["-y", "-ss", "1.5", "-to", "3", "-i", "in.mp4", "-c:v", "libx264", "-c:a", "aac", "out.mp4"]
    );
    assert_eq!(
        frame_args("2", "in.mp4", "f.png"),
        vec!["-y", "-ss", "2", "-i", "in.mp4", "-vframes", "1", "f.png"]
    );
}

fn link(from: &str, to: &str, t: u32) -> (String, String, u32) {
    (from.to_string(), to.to_string(), t)
}

#[test]
fn setting_a_transition_replaces_the_old_one() {
    let ts = vec![link("a", "b", 1), link("b", "c", 2), link("a", "b", 3), link("a", "c", 4)];
    let once = set_transition(ts, "a".to_string(), "b".to_string(), 5);
    assert_eq!(once, vec![link("b", "c", 2), link("a", "c", 4), link("a", "b", 5)]);
    let twice = set_transition(once, "a".to_string(), "b".to_string(), 6);
    assert_eq!(twice, vec![link("b", "c", 2), link("a", "c", 4), link("a", "b", 6)]);
    let fresh = set_transition(Vec::new(), "x".to_string(), "y".to_string(), 7);
    assert_eq!(fresh, vec![link("x", "y", 7)]);
}
