//! The generator capability shared by every backend: the engine
//! configuration shapes, the typed generation error, and the
//! post-processing applied to raw engine output.
//!
//! The inference engines themselves are outside collaborators. A backend
//! here is the verified plan of one loaded model: the construction-time
//! configuration it was built with and the per-call overrides it forwards.
//! The hosting layer runs the actual engine and hands the raw candidate
//! sequences (or the engine's error message) back in as plain values.
use vstd::prelude::*;
use vstd::string::{StrSliceExecFns, StringExecFns};

use crate::config::SamplingParams;
use crate::strip::{strip_occurrences, strip_prompt};

verus! {

/// Compute device of one backend, chosen once at construction: the
/// accelerator when one is available, else general-purpose compute.
#[derive(Clone, Copy, Debug, PartialEq, Eq, Structural)]
pub enum Device {
    Cuda,
    Cpu,
}

/// Prefer the accelerator when construction finds one available.
pub fn select_device(accelerator_available: bool) -> (r: Device)
    ensures
        r == (if accelerator_available {
            Device::Cuda
        } else {
            Device::Cpu
        }),
{
    if accelerator_available {
        Device::Cuda
    } else {
        Device::Cpu
    }
}

/// The model families of the registry.
#[derive(Clone, Copy, Debug, PartialEq, Eq, Structural)]
pub enum Family {
    Bart,
    MBart,
    M2M100,
    Gpt2,
    GptNeo,
    GptNeo1,
    ProphetNet,
}

/// Construction-time engine configuration: each field set to `Some`
/// overrides the engine's own default, `None` leaves it untouched.
/// Temperature, nucleus probability and repetition penalty are kept in
/// thousandths, as everywhere in this crate.
#[derive(Clone, Copy, Debug, PartialEq, Eq)]
pub struct GenConfig {
    pub min_length: Option<u16>,
    pub max_length: Option<u16>,
    pub do_sample: Option<bool>,
    pub early_stopping: Option<bool>,
    pub repetition_penalty_milli: Option<u32>,
    pub temperature_milli: Option<u32>,
    pub top_p_milli: Option<u32>,
    pub top_k: Option<u16>,
    pub num_beams: Option<u16>,
    pub num_return_sequences: Option<u16>,
    pub device: Option<Device>,
}

/// Per-call overrides a backend forwards to a generation call.
#[derive(Clone, Copy, Debug, PartialEq, Eq)]
pub struct GenOptions {
    pub max_length: u16,
    pub do_sample: bool,
    pub early_stopping: bool,
    pub repetition_penalty_milli: u32,
    pub temperature_milli: u32,
    pub top_p_milli: u32,
    pub top_k: u16,
}

/// The per-call overrides shared by the families that forward their
/// sampling parameters on every call: the caller's max length,
/// temperature and nucleus probability, sampling on, no early stop,
/// a fixed repetition penalty of 1.1 and a fixed top-k of 10.
pub open spec fn per_call_overrides(params: SamplingParams) -> GenOptions {
    GenOptions {
        max_length: params.max_tokens,
        do_sample: true,
        early_stopping: false,
        repetition_penalty_milli: 1100u32,
        temperature_milli: params.temperature_milli,
        top_p_milli: params.top_p_milli,
        top_k: 10u16,
    }
}

/// Builds the shared per-call overrides for `params`.
pub fn make_per_call_overrides(params: &SamplingParams) -> (r: GenOptions)
    requires
        params.valid(),
    ensures
        r == per_call_overrides(*params),
{
    GenOptions {
        max_length: params.max_tokens,
        do_sample: true,
        early_stopping: false,
        repetition_penalty_milli: 1100u32,
        temperature_milli: params.temperature_milli,
        top_p_milli: params.top_p_milli,
        top_k: 10u16,
    }
}

/// A failure on the inference call path. Construction-time failures are
/// fatal by design and never reach this type.
#[derive(Debug, PartialEq, Eq)]
pub enum GenerationError {
    /// The engine reported an error; carries the engine's message.
    Engine(String),
    /// The engine returned no candidate sequence at all.
    NoOutput,
}

impl GenerationError {
    /// A printable description of the failure.
    pub fn describe(&self) -> (r: String)
        ensures
            match self {
                GenerationError::Engine(m) => r@ == "engine failure: "@ + m@,
                GenerationError::NoOutput => r@ == "engine returned no output"@,
            },
    {
        match self {
            GenerationError::Engine(m) => {
                let mut s = String::from_str("engine failure: ");
                s.append(m.as_str());
                s
            },
            GenerationError::NoOutput => String::from_str("engine returned no output"),
        }
    }
}

/// What every backend's `respond` guarantees about the value it returns,
/// given the prompt and the engine outcome it was handed: an engine error
/// is surfaced as a typed error, an empty candidate list is a typed
/// error, and otherwise the first candidate is returned with every
/// occurrence of the prompt stripped.
pub open spec fn respond_post(
    context: Seq<char>,
    engine: Result<Vec<String>, String>,
    r: Result<String, GenerationError>,
) -> bool {
    match engine {
        Result::Err(m) => r matches Result::Err(GenerationError::Engine(m2)) && m2@ == m@,
        Result::Ok(outs) => if outs.len() == 0 {
            r matches Result::Err(e) && e == GenerationError::NoOutput
        } else {
            r matches Result::Ok(t) && t@ == strip_occurrences(outs[0]@, context)
        },
    }
}

/// The engine-independent half of `respond`: takes the engine outcome —
/// its candidate sequences, or its error message — picks the first
/// candidate and strips the echoed prompt from it.
pub fn postprocess_candidates(context: &str, engine: Result<Vec<String>, String>) -> (r: Result<
    String,
    GenerationError,
>)
    ensures
        respond_post(context@, engine, r),
{
    match engine {
        Result::Err(m) => Result::Err(GenerationError::Engine(m)),
        Result::Ok(outs) => {
            if outs.len() == 0 {
                Result::Err(GenerationError::NoOutput)
            } else {
                let first: &String = &outs[0];
                Result::Ok(strip_prompt(first.as_str(), context))
            }
        },
    }
}

} // verus!
