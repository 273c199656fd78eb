//! The multilingual, translation-oriented generation family. It decodes
//! with beam search — a fixed beam count of 5 and three candidate
//! sequences generated internally — though only the first candidate is
//! ever surfaced.
use vstd::prelude::*;
use vstd::string::StringExecFns;

use crate::ai::{
    make_per_call_overrides, per_call_overrides, postprocess_candidates, respond_post,
    select_device, Device, GenConfig, GenOptions, GenerationError,
};
use crate::config::SamplingParams;

verus! {

/// The verified plan of one loaded backend of this family.
#[derive(Debug, PartialEq, Eq)]
pub struct M2M100 {
    pub config: GenConfig,
}

impl M2M100 {
    /// Construction-time configuration: sampling on within a beam search
    /// of 5 beams and 3 returned sequences, with the caller's max length,
    /// temperature and nucleus probability; every other knob is left at
    /// the engine's default, and the device is picked at construction.
    pub open spec fn spec_config(params: SamplingParams, accelerator_available: bool) -> GenConfig {
        GenConfig {
            min_length: None,
            max_length: Some(params.max_tokens),
            do_sample: Some(true),
            early_stopping: None,
            repetition_penalty_milli: None,
            temperature_milli: Some(params.temperature_milli),
            top_p_milli: Some(params.top_p_milli),
            top_k: None,
            num_beams: Some(5u16),
            num_return_sequences: Some(3u16),
            device: Some(
                if accelerator_available {
                    Device::Cuda
                } else {
                    Device::Cpu
                },
            ),
        }
    }

    /// Plans a backend of this family.
    pub fn new(params: &SamplingParams, accelerator_available: bool) -> (r: M2M100)
        requires
            params.valid(),
        ensures
            r.config == M2M100::spec_config(*params, accelerator_available),
    {
        M2M100 {
            config: GenConfig {
                min_length: None,
                max_length: Some(params.max_tokens),
                do_sample: Some(true),
                early_stopping: None,
                repetition_penalty_milli: None,
                temperature_milli: Some(params.temperature_milli),
                top_p_milli: Some(params.top_p_milli),
                top_k: None,
                num_beams: Some(5u16),
                num_return_sequences: Some(3u16),
                device: Some(select_device(accelerator_available)),
            },
        }
    }

    /// This family forwards the shared per-call overrides on every call.
    pub fn call_options(&self, params: &SamplingParams) -> (r: Option<GenOptions>)
        requires
            params.valid(),
        ensures
            r == Some(per_call_overrides(*params)),
    {
        Some(make_per_call_overrides(params))
    }

    /// Post-processes one engine outcome: first candidate, prompt echo
    /// stripped; failures surface as typed errors, never a crash.
    pub fn respond(&self, context: &str, engine: Result<Vec<String>, String>) -> (r: Result<
        String,
        GenerationError,
    >)
        ensures
            respond_post(context@, engine, r),
    {
        postprocess_candidates(context, engine)
    }

    /// The stable, lowercase family identifier.
    pub fn name(&self) -> (r: String)
        ensures
            r@ == "m2m100"@,
    {
        String::from_str("m2m100")
    }
}

} // verus!
