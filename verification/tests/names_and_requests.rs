use openmedia::animate::{parse_easing, parse_preset, parse_timeline_mode, AnimationPreset, EasingCurve, TimelineModeKind};
use openmedia::chart::{create_chart, generate_chart, ChartType, SvgBuilder};
use openmedia::error::OpenMediaError;
use openmedia::text::push_signed_decimal;
use openmedia::requests::{
    auto_refine_settings, convert_extension, is_inline_content, mermaid_format, numbered_id,
    output_extension, parse_filter_kind, parse_transform_kind, rasterize_format, resize_method,
    spinner_for_request, template_kind, bullet_line, template_caption, FilterKind,
    GenerateMermaidRequest, GenerateSpinnerRequest, ImageConvertRequest, ImageResizeRequest,
    ImproveAutoRefineRequest, RasterizeSvgRequest, ResizeMethod, TemplateKind, TransformKind,
};
use openmedia::video::{
    added_track_filter, audio_mix_filter, is_slideshow_image_extension, names_scene_file,
    needs_browser, parse_transition_type, preview_format, scene_svg_document, screenshot_format,
    text_align, text_anchor, Anchor, DummyFrameRenderer, FrameFormat, SceneElementKind,
    SvgFrameRenderer, TransitionType,
};

#[test]
fn presets_by_name() {
    assert_eq!(parse_preset("spin"), AnimationPreset::Spin);
    assert_eq!(parse_preset("Fade-In"), AnimationPreset::FadeIn);
    assert_eq!(parse_preset("FADE_OUT"), AnimationPreset::FadeOut);
    assert_eq!(parse_preset("drawpath"), AnimationPreset::DrawPath);
    assert_eq!(parse_preset("parallax-scroll"), AnimationPreset::ParallaxScroll);
    assert_eq!(parse_preset("no-such-preset"), AnimationPreset::FadeIn);
}

#[test]
fn easings_by_name() {
    assert_eq!(parse_easing(None).curve, EasingCurve::Linear);
    assert_eq!(parse_easing(Some("ease-in-out")).curve, EasingCurve::EaseInOutQuad);
    assert_eq!(parse_easing(Some("EASE_IN_OUT")).curve, EasingCurve::EaseInOutQuad);
    assert_eq!(parse_easing(Some("bounce")).curve, EasingCurve::EaseOutBounce);
    assert_eq!(parse_easing(Some("spring")).curve, EasingCurve::Spring);
    assert_eq!(parse_easing(Some("wobbly")).curve, EasingCurve::Linear);
    assert!(parse_easing(Some("linear")).bezier_args.is_empty());
}

#[test]
fn cubic_bezier_easing_arguments() {
    let e = parse_easing(Some("cubic-bezier(0.1, 0.7 ,1.0,\t0.1)"));
    assert_eq!(e.curve, EasingCurve::CubicBezier);
    assert_eq!(e.bezier_args, vec!["0.1", "0.7", "1.0", "0.1"]);
    let odd = parse_easing(Some("cubic-bezier(a,,b,)"));
    assert_eq!(odd.bezier_args, vec!["a", "", "b", ""]);
    assert_eq!(parse_easing(Some("cubic-bezier(1,2,3)")).curve, EasingCurve::Linear);
    assert_eq!(parse_easing(Some("Cubic-Bezier(1,2,3,4)")).curve, EasingCurve::Linear);
    assert_eq!(parse_easing(Some("cubic-bezier(1,2,3,4")).curve, EasingCurve::Linear);
}

#[test]
fn timeline_modes() {
    assert_eq!(parse_timeline_mode("Sequential"), TimelineModeKind::Sequential);
    assert_eq!(parse_timeline_mode("staggered"), TimelineModeKind::Staggered);
    assert_eq!(parse_timeline_mode("whatever"), TimelineModeKind::Parallel);
}

#[test]
fn transitions_by_name() {
    assert_eq!(parse_transition_type("none"), TransitionType::NoTransition);
    assert_eq!(parse_transition_type("Slide_Left"), TransitionType::SlideLeft);
    assert_eq!(parse_transition_type("wipe_right"), TransitionType::WipeRight);
    assert_eq!(parse_transition_type("zoom_in"), TransitionType::Crossfade);
}

#[test]
fn anchors() {
    assert_eq!(text_anchor(Anchor::BottomLeft), "start");
    assert_eq!(text_anchor(Anchor::Center), "middle");
    assert_eq!(text_anchor(Anchor::TopRight), "end");
    assert_eq!(text_align(Anchor::CenterLeft), "left");
    assert_eq!(text_align(Anchor::TopCenter), "center");
    assert_eq!(text_align(Anchor::BottomRight), "right");
}

#[test]
fn scene_document_wraps_elements() {
    let doc = scene_svg_document(640, 360, "#000000", &vec!["<g/>".to_string(), "<text/>".to_string()]);
    assert_eq!(doc, "<svg xmlns=\"http://www.w3.org/2000/svg\" width=\"640\" height=\"360\" viewBox=\"0 0 640 360\"><rect width=\"100%\" height=\"100%\" fill=\"#000000\"/><g/><text/></svg>");
}

#[test]
fn browser_needed_for_html_or_code() {
    assert!(!needs_browser(&vec![vec![SceneElementKind::Text, SceneElementKind::Shape], vec![]]));
    assert!(needs_browser(&vec![vec![SceneElementKind::Text], vec![SceneElementKind::Code]]));
    assert!(needs_browser(&vec![vec![SceneElementKind::Html]]));
    assert!(!needs_browser(&vec![]));
}

#[test]
fn audio_filter_graphs() {
    let g = audio_mix_filter(&vec![0, 1500], &vec!["1".to_string(), "0.5".to_string()]);
    assert_eq!(g, "[1:a]adelay=0|0,volume=1[a1];[2:a]adelay=1500|1500,volume=0.5[a2];[a1][a2]amix=inputs=2:duration=first[out_a]");
    assert_eq!(audio_mix_filter(&vec![-3], &vec!["2".to_string()]), "[1:a]adelay=-3|-3,volume=2[a1];[a1]amix=inputs=1:duration=first[out_a]");
    assert_eq!(added_track_filter(250, "0.8"), "[1:a]adelay=250|250,volume=0.8[a1];[0:a][a1]amix=inputs=2:duration=first[out_a]");
}

#[test]
fn output_formats() {
    assert_eq!(screenshot_format("PNG").unwrap(), FrameFormat::Png);
    assert_eq!(screenshot_format("jpg").unwrap(), FrameFormat::Jpeg);
    assert_eq!(screenshot_format("webp").unwrap(), FrameFormat::Webp);
    assert_eq!(
        screenshot_format("GIF"),
        Err(OpenMediaError::InvalidParameter {
            param: "output_format".to_string(),
            reason: "Unsupported screenshot format: gif".to_string(),
        })
    );
    assert_eq!(preview_format("Jpeg"), Ok(FrameFormat::Jpeg));
    assert_eq!(preview_format("bmp"), Err("Unsupported preview output format: bmp".to_string()));
    assert_eq!(output_extension("JPEG"), "jpg");
    assert_eq!(output_extension("avif"), "avif");
    assert_eq!(output_extension("tiff"), "png");
}

#[test]
fn slideshow_extensions_and_scene_files() {
    assert!(is_slideshow_image_extension("JPG"));
    assert!(is_slideshow_image_extension("webp"));
    assert!(!is_slideshow_image_extension("gif"));
    assert!(names_scene_file("scene.json"));
    assert!(!names_scene_file("movie.mp4"));
    assert!(!names_scene_file("json"));
}

#[test]
fn renderers() {
    let d = DummyFrameRenderer::new();
    assert_eq!(d.name(), "dummy");
    assert_eq!(d.render_frame(), Err(OpenMediaError::BackendUnavailable("Dummy frame renderer".to_string())));
    assert_eq!(SvgFrameRenderer.name(), "svg");
    assert_eq!(DummyFrameRenderer::default().name(), "dummy");
}

#[test]
fn charts() {
    assert_eq!(generate_chart(ChartType::Pie, 300, 200).unwrap(), "<svg width=\"300\" height=\"200\"><text y=\"20\">Chart: Pie</text></svg>");
    assert_eq!(create_chart("BAR", Some("Sales"), 3, 800, 600).unwrap(), "<svg></svg>");
    assert_eq!(
        create_chart("bar", None, 0, 800, 600),
        Err(OpenMediaError::InvalidParameter { param: "data".to_string(), reason: "Chart data cannot be empty".to_string() })
    );
    assert_eq!(
        create_chart("Radar", None, 2, 800, 600),
        Err(OpenMediaError::InvalidParameter { param: "chart_type".to_string(), reason: "Unsupported chart type: radar".to_string() })
    );
    let b = SvgBuilder::new(10, 20).viewbox("0 0 10 20").style("a{}");
    assert_eq!(b.viewbox.as_deref(), Some("0 0 10 20"));
    assert_eq!(b.styles, vec!["a{}".to_string()]);
    assert_eq!(b.build(), "<svg></svg>");
}

#[test]
fn request_defaults() {
    let spin = GenerateSpinnerRequest { spinner_type: "ring".to_string(), color: None, size: None };
    let (svg, size) = spinner_for_request(&spin);
    assert_eq!(size, 60);
    assert!(svg.contains("stroke=\"#8b5cf6\""));
    let ras = RasterizeSvgRequest { svg: String::new(), width: None, height: None, background_color: None, output_format: None };
    assert_eq!(rasterize_format(&ras), "png");
    let mer = GenerateMermaidRequest { code: String::new(), theme: None, width: None, height: None, background_color: None, output_format: Some("  PNG ".to_string()) };
    assert_eq!(mermaid_format(&mer), "png");
    let mer2 = GenerateMermaidRequest { output_format: None, ..mer };
    assert_eq!(mermaid_format(&mer2), "svg");
    let auto = ImproveAutoRefineRequest { prompt: "p".to_string(), negative_prompt: None, width: None, height: Some(64), max_iterations: Some(9) };
    assert_eq!(auto_refine_settings(&auto), (512, 64, 5));
    let auto2 = ImproveAutoRefineRequest { max_iterations: None, ..auto };
    assert_eq!(auto_refine_settings(&auto2).2, 3);
    let conv = ImageConvertRequest { image_path: String::new(), format: "..WebP".to_string(), quality: None };
    assert_eq!(convert_extension(&conv), "webp");
    let rs = ImageResizeRequest { image_path: String::new(), width: 1, height: 1, algorithm: Some("Lanczos3".to_string()) };
    assert_eq!(resize_method(&rs), ResizeMethod::Lanczos3);
    let rs2 = ImageResizeRequest { algorithm: None, ..rs };
    assert_eq!(resize_method(&rs2), ResizeMethod::Bilinear);
}

#[test]
fn inline_content_detection() {
    assert!(is_inline_content("  \n<svg/>", '<'));
    assert!(is_inline_content("{\"w\":1}", '{'));
    assert!(!is_inline_content("/tmp/a.svg", '<'));
    assert!(!is_inline_content("   ", '<'));
}

#[test]
fn filters_and_transforms() {
    assert_eq!(parse_filter_kind("Gaussian_Blur"), Ok(FilterKind::GaussianBlur));
    assert_eq!(parse_filter_kind("huerotate"), Ok(FilterKind::HueRotate));
    assert_eq!(parse_filter_kind("Emboss"), Err("Unsupported filter type: Emboss".to_string()));
    assert_eq!(parse_transform_kind("FlipH"), Ok(TransformKind::FlipHorizontal));
    assert_eq!(parse_transform_kind("rotate"), Ok(TransformKind::Rotate));
    assert_eq!(parse_transform_kind("Skew"), Err("Unsupported transform type: Skew".to_string()));
}

#[test]
fn templates() {
    assert_eq!(template_kind("SlideShow"), TemplateKind::Slideshow);
    assert_eq!(template_kind("text_explainer"), TemplateKind::TextExplainer);
    assert_eq!(template_kind("social_media"), TemplateKind::Other);
    assert_eq!(numbered_id("slide_", 12), "slide_12");
    assert_eq!(bullet_line("First"), "• First");
    assert_eq!(template_caption("promo"), "Template: promo");
}

#[test]
fn signed_decimals_cover_the_whole_range() {
    let mut s = String::new();
    push_signed_decimal(&mut s, i64::MIN);
    assert_eq!(s, "-9223372036854775808");
    let mut t = String::from("x=");
    push_signed_decimal(&mut t, -42);
    push_signed_decimal(&mut t, 0);
    push_signed_decimal(&mut t, i64::MAX);
    assert_eq!(t, "x=-4209223372036854775807");
}

#[test]
fn every_preset_name_selects_its_preset_in_any_case() {
    let all = [
        ("fade_in", AnimationPreset::FadeIn),
        ("fade_out", AnimationPreset::FadeOut),
        ("slide_in_left", AnimationPreset::SlideInLeft),
        ("slide_in_right", AnimationPreset::SlideInRight),
        ("slide_in_up", AnimationPreset::SlideInUp),
        ("slide_in_down", AnimationPreset::SlideInDown),
        ("bounce", AnimationPreset::Bounce),
        ("pulse", AnimationPreset::Pulse),
        ("spin", AnimationPreset::Spin),
        ("shake", AnimationPreset::Shake),
        ("wobble", AnimationPreset::Wobble),
        ("typewriter", AnimationPreset::Typewriter),
        ("draw_path", AnimationPreset::DrawPath),
        ("morph", AnimationPreset::Morph),
        ("gradient_shift", AnimationPreset::GradientShift),
        ("parallax_scroll", AnimationPreset::ParallaxScroll),
        ("stagger", AnimationPreset::Stagger),
    ];
    for (name, preset) in all {
        assert_eq!(parse_preset(name), preset);
        assert_eq!(parse_preset(&name.to_uppercase()), preset);
        assert_eq!(parse_preset(&name.replace('_', "-")), preset);
    }
}
