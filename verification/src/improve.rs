//! Quality scoring handles and prompt refinement.

use vstd::prelude::*;
use crate::requests::{auto_refine_settings, refine_rounds, ImproveAutoRefineRequest};
use crate::text::push_str;

verus! {

/// Handle to the CLIP text-image alignment scorer.
pub struct ClipScorer;

/// Handle to the aesthetic quality predictor.
pub struct AestheticScorer;

/// The texts held by a list of strings.
pub open spec fn texts(v: Seq<String>) -> Seq<Seq<char>> {
    v.map_values(|s: String| s@)
}

/// The modifiers that raise the quality of a prompt.
pub open spec fn default_quality_suffixes() -> Seq<Seq<char>> {
    seq![
        "highly detailed"@,
        "professional"@,
        "sharp focus"@,
        "studio lighting"@,
        "8k uhd"@,
        "masterpiece"@,
    ]
}

/// The defects a negative prompt excludes by default.
pub open spec fn default_negatives() -> Seq<Seq<char>> {
    seq![
        "blurry"@,
        "low quality"@,
        "distorted"@,
        "deformed"@,
        "disfigured"@,
        "bad anatomy"@,
        "watermark"@,
        "text"@,
        "signature"@,
    ]
}

/// Rewrites prompts so that the next generation scores higher.
pub struct PromptRefiner {
    pub quality_suffixes: Vec<String>,
    pub negative_defaults: Vec<String>,
}

/// A refined prompt and the generation settings suggested with it.
pub struct RefinedPrompt {
    pub prompt: String,
    pub negative_prompt: String,
    pub suggested_steps: u32,
    /// Suggested classifier-free guidance scale, in tenths.
    pub suggested_cfg_scale_tenths: u32,
    pub changes: Vec<String>,
}

fn push_text(v: &mut Vec<String>, t: &str)
    ensures
        texts(final(v)@) == texts(old(v)@).push(t@),
{
    v.push(String::from_str(t));
    assert(texts(v@) =~= texts(old(v)@).push(t@));
}

impl PromptRefiner {
    /// A refiner with the default quality modifiers and negative terms.
    pub fn new() -> (r: PromptRefiner)
        ensures
            texts(r.quality_suffixes@) == default_quality_suffixes(),
            texts(r.negative_defaults@) == default_negatives(),
    {
        let mut q: Vec<String> = Vec::new();
        assert(texts(q@) =~= Seq::<Seq<char>>::empty());
        push_text(&mut q, "highly detailed");
        push_text(&mut q, "professional");
        push_text(&mut q, "sharp focus");
        push_text(&mut q, "studio lighting");
        push_text(&mut q, "8k uhd");
        push_text(&mut q, "masterpiece");
        let mut n: Vec<String> = Vec::new();
        assert(texts(n@) =~= Seq::<Seq<char>>::empty());
        push_text(&mut n, "blurry");
        push_text(&mut n, "low quality");
        push_text(&mut n, "distorted");
        push_text(&mut n, "deformed");
        push_text(&mut n, "disfigured");
        push_text(&mut n, "bad anatomy");
        push_text(&mut n, "watermark");
        push_text(&mut n, "text");
        push_text(&mut n, "signature");
        assert(texts(q@) =~= default_quality_suffixes());
        assert(texts(n@) =~= default_negatives());
        PromptRefiner { quality_suffixes: q, negative_defaults: n }
    }

    /// Refines a prompt for refinement round `round`: the quality keyword
    /// "highly detailed" is appended to the prompt and "blurry" to the
    /// negative prompt, with 30 steps and a guidance scale of 7.5.
    pub fn refine(&self, original_prompt: &str, original_negative: &str, round: u32) -> (r:
        RefinedPrompt)
        ensures
            r.prompt@ == original_prompt@ + ", highly detailed"@,
            r.negative_prompt@ == original_negative@ + ", blurry"@,
            r.suggested_steps == 30,
            r.suggested_cfg_scale_tenths == 75,
            texts(r.changes@) == seq!["Added quality keywords"@],
    {
        let mut prompt = String::from_str(original_prompt);
        push_str(&mut prompt, ", highly detailed");
        let mut negative = String::from_str(original_negative);
        push_str(&mut negative, ", blurry");
        let mut changes: Vec<String> = Vec::new();
        assert(texts(changes@) =~= Seq::<Seq<char>>::empty());
        push_text(&mut changes, "Added quality keywords");
        assert(texts(changes@) =~= seq!["Added quality keywords"@]);
        RefinedPrompt {
            prompt,
            negative_prompt: negative,
            suggested_steps: 30,
            suggested_cfg_scale_tenths: 75,
            changes,
        }
    }
}

// ---------------------------------------------------------------------
// The auto-refinement loop
// ---------------------------------------------------------------------

/// The message of an auto-refinement that produced no generation.
pub open spec fn no_record_message() -> Seq<char> {
    "No generation record created"@
}

/// Where an auto-refinement stands: the round about to be generated (or
/// just generated) out of `rounds`, the prompt pair of that round, the
/// generation it refines, and the index of the best record so far.
pub struct RefineRun {
    pub round: u32,
    pub rounds: u32,
    pub prompt: String,
    pub negative: String,
    pub parent: Option<String>,
    pub best: Option<usize>,
}

/// What the caller does next: generate (render, score and record) a round
/// with these prompts, linked to the generation it refines; report the
/// best record; or fail with a message.
pub enum RefineAction {
    Generate { round: u32, prompt: String, negative: String, refined_from: Option<String> },
    Done { best: usize },
    Failed(String),
}

/// The end of an auto-refinement whose best record so far is `best`: that
/// record, or the failure of a run that produced none.
pub open spec fn finished(best: Option<usize>, a: RefineAction) -> bool {
    match best {
        Some(b) => a matches RefineAction::Done { best } && best == b,
        None => a matches RefineAction::Failed(m) && m@ == no_record_message(),
    }
}

fn finish(best: Option<usize>) -> (a: RefineAction)
    ensures
        finished(best, a),
{
    match best {
        Some(b) => RefineAction::Done { best: b },
        None => RefineAction::Failed(String::from_str("No generation record created")),
    }
}

/// The start of an auto-refinement: round 0 of the number of rounds the
/// request asks for (at most 5), with the request's prompt and negative
/// prompt (empty unless given), no parent and no record yet. Round 0 is
/// generated unless there are no rounds, in which case the run fails.
pub fn auto_refine_start(req: &ImproveAutoRefineRequest) -> (r: (RefineRun, RefineAction))
    ensures
        r.0.round == 0,
        r.0.rounds == refine_rounds(*req),
        r.0.prompt@ == req.prompt@,
        r.0.negative@ == match req.negative_prompt {
            Some(n) => n@,
            None => Seq::<char>::empty(),
        },
        r.0.parent is None,
        r.0.best is None,
        r.0.rounds == 0 ==> finished(None, r.1),
        r.0.rounds > 0 ==> (r.1 matches RefineAction::Generate {
            round,
            prompt,
            negative,
            refined_from,
        } && round == 0 && prompt@ == r.0.prompt@ && negative@ == r.0.negative@
            && refined_from is None),
{
    let (_, _, rounds) = auto_refine_settings(req);
    let negative = match &req.negative_prompt {
        Some(n) => String::from_str(n.as_str()),
        None => String::new(),
    };
    let run = RefineRun {
        round: 0,
        rounds,
        prompt: String::from_str(req.prompt.as_str()),
        negative,
        parent: None,
        best: None,
    };
    let action = if rounds == 0 {
        finish(None)
    } else {
        RefineAction::Generate {
            round: 0,
            prompt: String::from_str(run.prompt.as_str()),
            negative: String::from_str(run.negative.as_str()),
            refined_from: None,
        }
    };
    (run, action)
}

/// One step of an auto-refinement, after round `run.round` was generated
/// as `generated_id` and recorded at `record_index`, with the scores
/// compared by the caller: `better` when it beat the best so far,
/// `needs_refinement` when it fell below the quality thresholds. The
/// record becomes the best when it is better. The run ends, with the best
/// record, when no refinement is needed or the last round is done;
/// otherwise the next round refines the prompt pair (quality keywords on
/// the prompt, "blurry" on the negative prompt) and refines this
/// generation.
pub fn auto_refine_step(
    run: RefineRun,
    generated_id: String,
    record_index: usize,
    better: bool,
    needs_refinement: bool,
) -> (r: (RefineRun, RefineAction))
    requires
        run.round < run.rounds,
    ensures
        r.0.best == if better {
            Some(record_index)
        } else {
            run.best
        },
        r.0.round == run.round + 1,
        r.0.rounds == run.rounds,
        (!needs_refinement || run.round + 1 == run.rounds) ==> ({
            &&& finished(r.0.best, r.1)
            &&& r.0.prompt@ == run.prompt@
            &&& r.0.negative@ == run.negative@
            &&& r.0.parent == run.parent
        }),
        !(!needs_refinement || run.round + 1 == run.rounds) ==> ({
            &&& r.0.prompt@ == run.prompt@ + ", highly detailed"@
            &&& r.0.negative@ == run.negative@ + ", blurry"@
            &&& r.0.parent matches Some(p) && p@ == generated_id@
            &&& r.1 matches RefineAction::Generate { round, prompt, negative, refined_from }
                && round == run.round + 1 && prompt@ == r.0.prompt@ && negative@ == r.0.negative@
                && (refined_from matches Some(f) && f@ == generated_id@)
        }),
{
    let best = if better {
        Some(record_index)
    } else {
        run.best
    };
    let round = run.round + 1;
    if !needs_refinement || round == run.rounds {
        let action = finish(best);
        (
            RefineRun {
                round,
                rounds: run.rounds,
                prompt: run.prompt,
                negative: run.negative,
                parent: run.parent,
                best,
            },
            action,
        )
    } else {
        let refined = PromptRefiner::new().refine(run.prompt.as_str(), run.negative.as_str(), round);
        let action = RefineAction::Generate {
            round,
            prompt: String::from_str(refined.prompt.as_str()),
            negative: String::from_str(refined.negative_prompt.as_str()),
            refined_from: Some(String::from_str(generated_id.as_str())),
        };
        (
            RefineRun {
                round,
                rounds: run.rounds,
                prompt: refined.prompt,
                negative: refined.negative_prompt,
                parent: Some(generated_id),
                best,
            },
            action,
        )
    }
}

} // verus!
