//! The large uncased sequence-to-sequence family. Its configuration has
//! the same shape as the large causal tier; per-call sampling parameters
//! are accepted but ignored.
use vstd::prelude::*;
use vstd::string::StringExecFns;

use crate::ai::{
    postprocess_candidates, respond_post, select_device, Device, GenConfig, GenOptions,
    GenerationError,
};
use crate::config::SamplingParams;

verus! {

/// The verified plan of one loaded backend of this family.
#[derive(Debug, PartialEq, Eq)]
pub struct ProphetNet {
    pub config: GenConfig,
}

impl ProphetNet {
    /// Construction-time configuration: minimum length 10, sampling on,
    /// no early stop, repetition penalty 1.1, top-k 55, and the caller's
    /// max length, temperature and nucleus probability; the device is
    /// picked at construction.
    pub open spec fn spec_config(params: SamplingParams, accelerator_available: bool) -> GenConfig {
        GenConfig {
            min_length: Some(10u16),
            max_length: Some(params.max_tokens),
            do_sample: Some(true),
            early_stopping: Some(false),
            repetition_penalty_milli: Some(1100u32),
            temperature_milli: Some(params.temperature_milli),
            top_p_milli: Some(params.top_p_milli),
            top_k: Some(55u16),
            num_beams: None,
            num_return_sequences: None,
            device: Some(
                if accelerator_available {
                    Device::Cuda
                } else {
                    Device::Cpu
                },
            ),
        }
    }

    /// Plans a backend of this family.
    pub fn new(params: &SamplingParams, accelerator_available: bool) -> (r: ProphetNet)
        requires
            params.valid(),
        ensures
            r.config == ProphetNet::spec_config(*params, accelerator_available),
    {
        ProphetNet {
            config: GenConfig {
                min_length: Some(10u16),
                max_length: Some(params.max_tokens),
                do_sample: Some(true),
                early_stopping: Some(false),
                repetition_penalty_milli: Some(1100u32),
                temperature_milli: Some(params.temperature_milli),
                top_p_milli: Some(params.top_p_milli),
                top_k: Some(55u16),
                num_beams: None,
                num_return_sequences: None,
                device: Some(select_device(accelerator_available)),
            },
        }
    }

    /// This family accepts per-call sampling parameters but forwards no
    /// overrides: the call runs on the construction-time configuration.
    pub fn call_options(&self, params: &SamplingParams) -> (r: Option<GenOptions>)
        requires
            params.valid(),
        ensures
            r is None,
    {
        None
    }

    /// Post-processes one engine outcome: first candidate, prompt echo
    /// stripped; failures surface as typed errors, never a crash.
    pub fn respond(&self, context: &str, engine: Result<Vec<String>, String>) -> (r: Result<
        String,
        GenerationError,
    >)
        ensures
            respond_post(context@, engine, r),
    {
        postprocess_candidates(context, engine)
    }

    /// The stable, lowercase family identifier.
    pub fn name(&self) -> (r: String)
        ensures
            r@ == "prophetnet"@,
    {
        String::from_str("prophetnet")
    }
}

} // verus!
