//! The small causal-LM family constructed entirely on engine defaults:
//! no construction-time knob is overridden.
use vstd::prelude::*;
use vstd::string::StringExecFns;

use crate::ai::{
    make_per_call_overrides, per_call_overrides, postprocess_candidates, respond_post, GenConfig,
    GenOptions, GenerationError,
};
use crate::config::SamplingParams;

verus! {

/// The verified plan of one loaded backend of this family.
#[derive(Debug, PartialEq, Eq)]
pub struct GPT2 {
    pub config: GenConfig,
}

impl GPT2 {
    /// Construction-time configuration: every knob, the device included,
    /// is left at the engine's own default.
    pub open spec fn spec_config() -> GenConfig {
        GenConfig {
            min_length: None,
            max_length: None,
            do_sample: None,
            early_stopping: None,
            repetition_penalty_milli: None,
            temperature_milli: None,
            top_p_milli: None,
            top_k: None,
            num_beams: None,
            num_return_sequences: None,
            device: None,
        }
    }

    /// Plans a backend of this family. It takes no knobs: the sampling
    /// parameters a caller selected apply per call, not at construction.
    pub fn new() -> (r: GPT2)
        ensures
            r.config == GPT2::spec_config(),
    {
        GPT2 {
            config: GenConfig {
                min_length: None,
                max_length: None,
                do_sample: None,
                early_stopping: None,
                repetition_penalty_milli: None,
                temperature_milli: None,
                top_p_milli: None,
                top_k: None,
                num_beams: None,
                num_return_sequences: None,
                device: None,
            },
        }
    }

    /// This family forwards the shared per-call overrides on every call.
    pub fn call_options(&self, params: &SamplingParams) -> (r: Option<GenOptions>)
        requires
            params.valid(),
        ensures
            r == Some(per_call_overrides(*params)),
    {
        Some(make_per_call_overrides(params))
    }

    /// Post-processes one engine outcome: first candidate, prompt echo
    /// stripped; failures surface as typed errors, never a crash.
    pub fn respond(&self, context: &str, engine: Result<Vec<String>, String>) -> (r: Result<
        String,
        GenerationError,
    >)
        ensures
            respond_post(context@, engine, r),
    {
        postprocess_candidates(context, engine)
    }

    /// The stable, lowercase family identifier.
    pub fn name(&self) -> (r: String)
        ensures
            r@ == "gpt2"@,
    {
        String::from_str("gpt2")
    }
}

} // verus!
