//! The short-form, summarizer-style generation family.
use vstd::prelude::*;
use vstd::string::StringExecFns;

use crate::ai::{
    make_per_call_overrides, per_call_overrides, postprocess_candidates, respond_post,
    select_device, Device, GenConfig, GenOptions, GenerationError,
};
use crate::config::SamplingParams;

verus! {

/// The verified plan of one loaded backend of this family: the engine
/// configuration it was constructed with.
#[derive(Debug, PartialEq, Eq)]
pub struct Bart {
    pub config: GenConfig,
}

impl Bart {
    /// Construction-time configuration of this family: a fixed minimum
    /// length of 10, sampling on, no early stop, repetition penalty 1.0,
    /// a fixed top-k of 55, and the caller's max length, temperature and
    /// nucleus probability; the device is picked at construction.
    pub open spec fn spec_config(params: SamplingParams, accelerator_available: bool) -> GenConfig {
        GenConfig {
            min_length: Some(10u16),
            max_length: Some(params.max_tokens),
            do_sample: Some(true),
            early_stopping: Some(false),
            repetition_penalty_milli: Some(1000u32),
            temperature_milli: Some(params.temperature_milli),
            top_p_milli: Some(params.top_p_milli),
            top_k: Some(55u16),
            num_beams: None,
            num_return_sequences: None,
            device: Some(
                if accelerator_available {
                    Device::Cuda
                } else {
                    Device::Cpu
                },
            ),
        }
    }

    /// Plans a backend of this family. The slow weight load that a
    /// hosting process performs from this plan either fully succeeds or
    /// is a fatal startup failure; it never yields a half-built backend.
    pub fn new(params: &SamplingParams, accelerator_available: bool) -> (r: Bart)
        requires
            params.valid(),
        ensures
            r.config == Bart::spec_config(*params, accelerator_available),
    {
        Bart {
            config: GenConfig {
                min_length: Some(10u16),
                max_length: Some(params.max_tokens),
                do_sample: Some(true),
                early_stopping: Some(false),
                repetition_penalty_milli: Some(1000u32),
                temperature_milli: Some(params.temperature_milli),
                top_p_milli: Some(params.top_p_milli),
                top_k: Some(55u16),
                num_beams: None,
                num_return_sequences: None,
                device: Some(select_device(accelerator_available)),
            },
        }
    }

    /// This family forwards the shared per-call overrides on every call.
    pub fn call_options(&self, params: &SamplingParams) -> (r: Option<GenOptions>)
        requires
            params.valid(),
        ensures
            r == Some(per_call_overrides(*params)),
    {
        Some(make_per_call_overrides(params))
    }

    /// Post-processes one engine outcome: first candidate, prompt echo
    /// stripped; failures surface as typed errors, never a crash.
    pub fn respond(&self, context: &str, engine: Result<Vec<String>, String>) -> (r: Result<
        String,
        GenerationError,
    >)
        ensures
            respond_post(context@, engine, r),
    {
        postprocess_candidates(context, engine)
    }

    /// The stable, lowercase family identifier.
    pub fn name(&self) -> (r: String)
        ensures
            r@ == "bart"@,
    {
        String::from_str("bart")
    }
}

} // verus!
