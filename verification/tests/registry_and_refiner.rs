use openmedia::models::{CpuInfo, GpuInfo, HardwareInfo, ModelCategory, ModelFormat, ModelInfo, ModelRegistry};
use openmedia::improve::{auto_refine_start, auto_refine_step, PromptRefiner, RefineAction, RefineRun};
use openmedia::requests::ImproveAutoRefineRequest;

fn model(id: &str, category: ModelCategory) -> ModelInfo {
    ModelInfo {
        id: id.to_string(),
        name: format!("{} model", id),
        category,
        path: format!("/models/{}.gguf", id),
        size_bytes: 1024,
        format: ModelFormat::Gguf,
        quantization: None,
        checksum: None,
        verified: false,
        min_vram: 0,
        supported_resolutions: vec![(512, 512)],
        default_resolution: (512, 512),
    }
}

fn registry() -> ModelRegistry {
    ModelRegistry::with_models(
        vec![
            model("sd-1.5-q8_0", ModelCategory::Diffusion),
            model("clip-vit-b32-text", ModelCategory::Clip),
            model("sdxl", ModelCategory::Diffusion),
            model("clip-vit-b32-text", ModelCategory::Aesthetic),
        ],
        "/models".to_string(),
    )
}

#[test]
fn scanning_an_empty_directory_gives_an_empty_registry() {
    let reg = ModelRegistry::scan("/tmp/none").unwrap();
    assert!(reg.get("anything").is_none());
    assert!(reg.list(None).is_empty());
}

#[test]
fn get_finds_the_first_model_with_the_id() {
    let reg = registry();
    assert_eq!(reg.get("sdxl").unwrap().path, "/models/sdxl.gguf");
    assert_eq!(reg.get("clip-vit-b32-text").unwrap().category, ModelCategory::Clip);
    assert!(reg.get("missing").is_none());
    assert!(reg.get("SDXL").is_none());
}

#[test]
fn list_filters_by_category_in_order() {
    let reg = registry();
    let all: Vec<&str> = reg.list(None).iter().map(|m| m.id.as_str()).collect();
    assert_eq!(all, vec!["sd-1.5-q8_0", "clip-vit-b32-text", "sdxl", "clip-vit-b32-text"]);
    let diffusion: Vec<&str> = reg.list(Some(ModelCategory::Diffusion)).iter().map(|m| m.id.as_str()).collect();
    assert_eq!(diffusion, vec!["sd-1.5-q8_0", "sdxl"]);
    assert!(reg.list(Some(ModelCategory::Vae)).is_empty());
}

fn with_vram(id: &str, category: ModelCategory, min_vram: u64) -> ModelInfo {
    let mut m = model(id, category);
    m.min_vram = min_vram;
    m
}

fn hardware(vram: Option<u64>) -> HardwareInfo {
    HardwareInfo {
        cpu: CpuInfo { brand: "cpu".to_string() },
        gpu: vram.map(|v| GpuInfo { name: "gpu".to_string(), vram_bytes: v }),
    }
}

#[test]
fn the_most_demanding_fitting_diffusion_model_is_selected() {
    const GB: u64 = 1 << 30;
    let reg = ModelRegistry::with_models(
        vec![
            with_vram("sd-cpu", ModelCategory::Diffusion, 0),
            with_vram("upscaler", ModelCategory::Upscale, 2 * GB),
            with_vram("sd-4g", ModelCategory::Diffusion, 4 * GB),
            with_vram("sd-4g-b", ModelCategory::Diffusion, 4 * GB),
            with_vram("sdxl-12g", ModelCategory::Diffusion, 12 * GB),
        ],
        "/models".to_string(),
    );
    assert_eq!(reg.select_best_diffusion(&hardware(None)).unwrap().id, "sd-cpu");
    assert_eq!(reg.select_best_diffusion(&hardware(Some(8 * GB))).unwrap().id, "sd-4g");
    assert_eq!(reg.select_best_diffusion(&hardware(Some(16 * GB))).unwrap().id, "sdxl-12g");
    assert_eq!(registry().select_best_diffusion(&hardware(None)).unwrap().id, "sd-1.5-q8_0");
    let none = ModelRegistry::with_models(
        vec![with_vram("big", ModelCategory::Diffusion, 12 * GB), model("clip", ModelCategory::Clip)],
        "/models".to_string(),
    );
    assert!(none.select_best_diffusion(&hardware(Some(GB))).is_none());
    assert!(ModelRegistry::scan("/tmp/none").unwrap().select_best_diffusion(&hardware(None)).is_none());
}

#[test]
fn every_model_verifies() {
    assert_eq!(registry().verify_model("sdxl").unwrap(), true);
}

#[test]
fn refiner_defaults() {
    let r = PromptRefiner::new();
    assert_eq!(r.quality_suffixes, vec!["highly detailed", "professional", "sharp focus", "studio lighting", "8k uhd", "masterpiece"]);
    assert_eq!(r.negative_defaults.len(), 9);
    assert_eq!(r.negative_defaults[0], "blurry");
    assert_eq!(r.negative_defaults[8], "signature");
}

#[test]
fn refine_appends_quality_keywords() {
    let r = PromptRefiner::new();
    let out = r.refine("a cat", "", 2);
    assert_eq!(out.prompt, "a cat, highly detailed");
    assert_eq!(out.negative_prompt, ", blurry");
    assert_eq!(out.suggested_steps, 30);
    assert_eq!(out.suggested_cfg_scale_tenths, 75);
    assert_eq!(out.changes, vec!["Added quality keywords".to_string()]);
    let again = r.refine(&out.prompt, &out.negative_prompt, 3);
    assert!(again.prompt.starts_with(&out.prompt));
}

#[test]
fn a_found_model_is_listed_under_its_category() {
    let reg = registry();
    for id in ["sd-1.5-q8_0", "clip-vit-b32-text", "sdxl"] {
        let found = reg.get(id).unwrap();
        assert!(reg.list(None).iter().any(|m| std::ptr::eq(*m, found)));
        assert!(reg.list(Some(found.category)).iter().any(|m| std::ptr::eq(*m, found)));
    }
    for c in [ModelCategory::Diffusion, ModelCategory::Clip, ModelCategory::Aesthetic] {
        assert!(reg.list(Some(c)).iter().all(|m| m.category == c));
    }
}

fn refine_request(max_iterations: Option<u32>, negative: Option<&str>) -> ImproveAutoRefineRequest {
    ImproveAutoRefineRequest {
        prompt: "a red fox".to_string(),
        negative_prompt: negative.map(|n| n.to_string()),
        width: None,
        height: None,
        max_iterations,
    }
}

fn generate_parts(action: RefineAction) -> (u32, String, String, Option<String>) {
    match action {
        RefineAction::Generate { round, prompt, negative, refined_from } => {
            (round, prompt, negative, refined_from)
        }
        _ => panic!("expected a round to generate"),
    }
}

#[test]
fn auto_refine_starts_with_the_request_prompts() {
    let (run, action) = auto_refine_start(&refine_request(None, Some("dark")));
    assert_eq!(run.round, 0);
    assert_eq!(run.rounds, 3);
    assert_eq!(run.prompt, "a red fox");
    assert_eq!(run.negative, "dark");
    assert!(run.parent.is_none());
    assert!(run.best.is_none());
    let (round, prompt, negative, refined_from) = generate_parts(action);
    assert_eq!(round, 0);
    assert_eq!(prompt, "a red fox");
    assert_eq!(negative, "dark");
    assert!(refined_from.is_none());
}

#[test]
fn auto_refine_rounds_are_capped_at_five() {
    let (run, _) = auto_refine_start(&refine_request(Some(9), None));
    assert_eq!(run.rounds, 5);
    assert_eq!(run.negative, "");
    let (run, _) = auto_refine_start(&refine_request(Some(2), None));
    assert_eq!(run.rounds, 2);
}

#[test]
fn auto_refine_with_no_rounds_fails() {
    let (run, action) = auto_refine_start(&refine_request(Some(0), None));
    assert_eq!(run.rounds, 0);
    match action {
        RefineAction::Failed(message) => assert_eq!(message, "No generation record created"),
        _ => panic!("expected a failure"),
    }
}

#[test]
fn auto_refine_refines_the_prompt_and_links_the_parent() {
    let (run, _) = auto_refine_start(&refine_request(None, Some("dark")));
    let (run, action) = auto_refine_step(run, "gen-0".to_string(), 0, true, true);
    assert_eq!(run.round, 1);
    assert_eq!(run.best, Some(0));
    assert_eq!(run.prompt, "a red fox, highly detailed");
    assert_eq!(run.negative, "dark, blurry");
    assert_eq!(run.parent, Some("gen-0".to_string()));
    let (round, prompt, negative, refined_from) = generate_parts(action);
    assert_eq!(round, 1);
    assert_eq!(prompt, "a red fox, highly detailed");
    assert_eq!(negative, "dark, blurry");
    assert_eq!(refined_from, Some("gen-0".to_string()));
}

#[test]
fn auto_refine_stops_when_no_refinement_is_needed() {
    let (run, _) = auto_refine_start(&refine_request(None, None));
    let (run, action) = auto_refine_step(run, "gen-0".to_string(), 0, true, false);
    assert_eq!(run.best, Some(0));
    assert!(matches!(action, RefineAction::Done { best: 0 }));
}

#[test]
fn auto_refine_keeps_the_best_record_through_the_last_round() {
    let (run, _) = auto_refine_start(&refine_request(Some(2), None));
    let (run, _) = auto_refine_step(run, "gen-0".to_string(), 0, true, true);
    let (run, action) = auto_refine_step(run, "gen-1".to_string(), 1, false, true);
    assert_eq!(run.round, 2);
    assert_eq!(run.best, Some(0));
    assert!(matches!(action, RefineAction::Done { best: 0 }));
}

#[test]
fn auto_refine_without_a_best_record_fails_at_the_end() {
    let run = RefineRun {
        round: 0,
        rounds: 1,
        prompt: "p".to_string(),
        negative: String::new(),
        parent: None,
        best: None,
    };
    let (_, action) = auto_refine_step(run, "gen-0".to_string(), 0, false, true);
    match action {
        RefineAction::Failed(message) => assert_eq!(message, "No generation record created"),
        _ => panic!("expected a failure"),
    }
}
