//! The small causal-LM family with a fully fixed configuration: every
//! knob is pinned at construction, and per-call sampling parameters are
//! accepted but ignored. This is also the registry's fallback family for
//! unknown identifiers.
use vstd::prelude::*;
use vstd::string::StringExecFns;

use crate::ai::{
    postprocess_candidates, respond_post, select_device, Device, GenConfig, GenOptions,
    GenerationError,
};
use crate::config::SamplingParams;

verus! {

/// The verified plan of one loaded backend of this family.
#[derive(Debug, PartialEq, Eq)]
pub struct GPTNeo {
    pub config: GenConfig,
}

impl GPTNeo {
    /// Construction-time configuration, fixed for every caller: minimum
    /// length 10, maximum length 96, sampling on, no early stop,
    /// repetition penalty 1.0, temperature 3.5, nucleus probability 0.9
    /// and top-k 55; the device is picked at construction.
    pub open spec fn spec_config(accelerator_available: bool) -> GenConfig {
        GenConfig {
            min_length: Some(10u16),
            max_length: Some(96u16),
            do_sample: Some(true),
            early_stopping: Some(false),
            repetition_penalty_milli: Some(1000u32),
            temperature_milli: Some(3500u32),
            top_p_milli: Some(900u32),
            top_k: Some(55u16),
            num_beams: None,
            num_return_sequences: None,
            device: Some(
                if accelerator_available {
                    Device::Cuda
                } else {
                    Device::Cpu
                },
            ),
        }
    }

    /// Plans a backend of this family. It takes no knobs: its
    /// configuration is the same whatever a caller selected.
    pub fn new(accelerator_available: bool) -> (r: GPTNeo)
        ensures
            r.config == GPTNeo::spec_config(accelerator_available),
    {
        GPTNeo {
            config: GenConfig {
                min_length: Some(10u16),
                max_length: Some(96u16),
                do_sample: Some(true),
                early_stopping: Some(false),
                repetition_penalty_milli: Some(1000u32),
                temperature_milli: Some(3500u32),
                top_p_milli: Some(900u32),
                top_k: Some(55u16),
                num_beams: None,
                num_return_sequences: None,
                device: Some(select_device(accelerator_available)),
            },
        }
    }

    /// This family accepts per-call sampling parameters but forwards no
    /// overrides: the call runs on the construction-time configuration.
    pub fn call_options(&self, params: &SamplingParams) -> (r: Option<GenOptions>)
        requires
            params.valid(),
        ensures
            r is None,
    {
        None
    }

    /// Post-processes one engine outcome: first candidate, prompt echo
    /// stripped; failures surface as typed errors, never a crash.
    pub fn respond(&self, context: &str, engine: Result<Vec<String>, String>) -> (r: Result<
        String,
        GenerationError,
    >)
        ensures
            respond_post(context@, engine, r),
    {
        postprocess_candidates(context, engine)
    }

    /// The stable, lowercase family identifier.
    pub fn name(&self) -> (r: String)
        ensures
            r@ == "gptneo"@,
    {
        String::from_str("gptneo")
    }
}

} // verus!
