//! A serving shim for pretrained text-generation models: a backend is
//! selected by name, the heterogeneous sampling knobs of each model family
//! are normalized into one request shape, and the raw engine output has the
//! echoed prompt stripped before it is returned.
//!
//! The neural-network inference itself is an outside capability: the
//! verified library plans the engine configuration, selects the backend,
//! and post-processes the raw candidate text that the engine hands back.
use vstd::prelude::*;

pub mod ai;
pub mod api;
pub mod bart;
pub mod cli;
pub mod config;
pub mod gpt2;
pub mod gptneo;
pub mod gptneo1;
pub mod m2m100;
pub mod mbart;
pub mod prophetnet;
pub mod strip;

use vstd::string::StringExecFns;

use crate::ai::{Family, GenConfig, GenOptions, GenerationError};
use crate::bart::Bart;
use crate::config::SamplingParams;
use crate::gpt2::GPT2;
use crate::gptneo::GPTNeo;
use crate::gptneo1::GPTNeo1;
use crate::m2m100::M2M100;
use crate::mbart::MBart;
use crate::prophetnet::ProphetNet;
use crate::strip::strip_occurrences;

verus! {

/// The structured result of one generation call: the backend identifier a
/// caller chose to record, the post-processed continuation text, and the
/// original prompt.
#[derive(Clone, Debug, PartialEq, Eq)]
pub struct GenerateResponse {
    pub model: String,
    pub text: String,
    pub prompt: String,
}

/// One selected backend: a closed set of tagged variants dispatched
/// through a single interface, each carrying the verified plan of its
/// family.
#[derive(Debug, PartialEq, Eq)]
pub enum Backend {
    Bart(Bart),
    MBart(MBart),
    M2M100(M2M100),
    Gpt2(GPT2),
    GptNeo(GPTNeo),
    GptNeo1(GPTNeo1),
    ProphetNet(ProphetNet),
}

impl Backend {
    /// The family this backend belongs to.
    pub open spec fn family(&self) -> Family {
        match self {
            Backend::Bart(_) => Family::Bart,
            Backend::MBart(_) => Family::MBart,
            Backend::M2M100(_) => Family::M2M100,
            Backend::Gpt2(_) => Family::Gpt2,
            Backend::GptNeo(_) => Family::GptNeo,
            Backend::GptNeo1(_) => Family::GptNeo1,
            Backend::ProphetNet(_) => Family::ProphetNet,
        }
    }

    /// The identifier `name` reports: the lowercase family name; the two
    /// weight tiers of the small and large causal family share one name.
    pub open spec fn spec_name(&self) -> Seq<char> {
        match self {
            Backend::Bart(_) => "bart"@,
            Backend::MBart(_) => "mbart"@,
            Backend::M2M100(_) => "m2m100"@,
            Backend::Gpt2(_) => "gpt2"@,
            Backend::GptNeo(_) => "gptneo"@,
            Backend::GptNeo1(_) => "gptneo"@,
            Backend::ProphetNet(_) => "prophetnet"@,
        }
    }

    /// The construction-time engine configuration this backend carries.
    pub open spec fn config(&self) -> GenConfig {
        match self {
            Backend::Bart(b) => b.config,
            Backend::MBart(b) => b.config,
            Backend::M2M100(b) => b.config,
            Backend::Gpt2(b) => b.config,
            Backend::GptNeo(b) => b.config,
            Backend::GptNeo1(b) => b.config,
            Backend::ProphetNet(b) => b.config,
        }
    }

    /// The per-call overrides this backend forwards for `params`: the
    /// shared overrides for the families that pass their sampling
    /// parameters through, nothing for the families that ignore them.
    pub open spec fn spec_call_options(&self, params: SamplingParams) -> Option<GenOptions> {
        match self {
            Backend::Bart(_) => Some(crate::ai::per_call_overrides(params)),
            Backend::MBart(_) => Some(crate::ai::per_call_overrides(params)),
            Backend::M2M100(_) => Some(crate::ai::per_call_overrides(params)),
            Backend::Gpt2(_) => Some(crate::ai::per_call_overrides(params)),
            Backend::GptNeo(_) => None,
            Backend::GptNeo1(_) => None,
            Backend::ProphetNet(_) => None,
        }
    }

    /// Reports the stable, lowercase backend identifier.
    pub fn name(&self) -> (r: String)
        ensures
            r@ == self.spec_name(),
    {
        match self {
            Backend::Bart(b) => b.name(),
            Backend::MBart(b) => b.name(),
            Backend::M2M100(b) => b.name(),
            Backend::Gpt2(b) => b.name(),
            Backend::GptNeo(b) => b.name(),
            Backend::GptNeo1(b) => b.name(),
            Backend::ProphetNet(b) => b.name(),
        }
    }

    /// The per-call overrides to hand the engine for one generation call.
    pub fn call_options(&self, params: &SamplingParams) -> (r: Option<GenOptions>)
        requires
            params.valid(),
        ensures
            r == self.spec_call_options(*params),
    {
        match self {
            Backend::Bart(b) => b.call_options(params),
            Backend::MBart(b) => b.call_options(params),
            Backend::M2M100(b) => b.call_options(params),
            Backend::Gpt2(b) => b.call_options(params),
            Backend::GptNeo(b) => b.call_options(params),
            Backend::GptNeo1(b) => b.call_options(params),
            Backend::ProphetNet(b) => b.call_options(params),
        }
    }

    /// Post-processes one engine outcome for this backend.
    pub fn respond(&self, context: &str, engine: Result<Vec<String>, String>) -> (r: Result<
        String,
        GenerationError,
    >)
        ensures
            crate::ai::respond_post(context@, engine, r),
    {
        match self {
            Backend::Bart(b) => b.respond(context, engine),
            Backend::MBart(b) => b.respond(context, engine),
            Backend::M2M100(b) => b.respond(context, engine),
            Backend::Gpt2(b) => b.respond(context, engine),
            Backend::GptNeo(b) => b.respond(context, engine),
            Backend::GptNeo1(b) => b.respond(context, engine),
            Backend::ProphetNet(b) => b.respond(context, engine),
        }
    }
}

/// Whether `id` names a family of the registry (case-sensitive exact
/// match).
pub open spec fn known_family(id: Seq<char>) -> bool {
    ||| id == "bart"@
    ||| id == "mbart"@
    ||| id == "m2m100"@
    ||| id == "gpt2"@
    ||| id == "gptneo"@
    ||| id == "gptneo1"@
    ||| id == "prophetnet"@
}

/// The family `id` selects: its own when `id` is a known family name,
/// and deterministically the small causal family otherwise — an unknown
/// or empty identifier degrades silently, it is never an error.
pub open spec fn family_for(id: Seq<char>) -> Family {
    if id == "bart"@ {
        Family::Bart
    } else if id == "mbart"@ {
        Family::MBart
    } else if id == "m2m100"@ {
        Family::M2M100
    } else if id == "gpt2"@ {
        Family::Gpt2
    } else if id == "gptneo"@ {
        Family::GptNeo
    } else if id == "gptneo1"@ {
        Family::GptNeo1
    } else if id == "prophetnet"@ {
        Family::ProphetNet
    } else {
        Family::GptNeo
    }
}

/// The backend `create_ai` builds for `id`: the selected family, carrying
/// that family's construction-time configuration for `params`.
pub open spec fn spec_backend(
    id: Seq<char>,
    params: SamplingParams,
    accelerator_available: bool,
) -> Backend {
    match family_for(id) {
        Family::Bart => Backend::Bart(
            Bart { config: Bart::spec_config(params, accelerator_available) },
        ),
        Family::MBart => Backend::MBart(
            MBart { config: MBart::spec_config(params, accelerator_available) },
        ),
        Family::M2M100 => Backend::M2M100(
            M2M100 { config: M2M100::spec_config(params, accelerator_available) },
        ),
        Family::Gpt2 => Backend::Gpt2(GPT2 { config: GPT2::spec_config() }),
        Family::GptNeo => Backend::GptNeo(
            GPTNeo { config: GPTNeo::spec_config(accelerator_available) },
        ),
        Family::GptNeo1 => Backend::GptNeo1(
            GPTNeo1 { config: GPTNeo1::spec_config(params, accelerator_available) },
        ),
        Family::ProphetNet => Backend::ProphetNet(
            ProphetNet { config: ProphetNet::spec_config(params, accelerator_available) },
        ),
    }
}

/// String equality by view.
fn str_eq(a: &str, b: &str) -> (r: bool)
    ensures
        r == (a@ == b@),
{
    let sa = String::from_str(a);
    let sb = String::from_str(b);
    sa == sb
}

/// The backend selector: looks `ai` up in the fixed registry and builds
/// that family's plan; an unknown or empty identifier falls back to the
/// small causal family rather than failing. Families that ignore some of
/// `params` still accept it without error.
pub fn create_ai(ai: String, params: &SamplingParams, accelerator_available: bool) -> (r: Backend)
    requires
        params.valid(),
    ensures
        r == spec_backend(ai@, *params, accelerator_available),
        r.family() == family_for(ai@),
{
    if str_eq(ai.as_str(), "bart") {
        Backend::Bart(Bart::new(params, accelerator_available))
    } else if str_eq(ai.as_str(), "mbart") {
        Backend::MBart(MBart::new(params, accelerator_available))
    } else if str_eq(ai.as_str(), "m2m100") {
        Backend::M2M100(M2M100::new(params, accelerator_available))
    } else if str_eq(ai.as_str(), "gpt2") {
        Backend::Gpt2(GPT2::new())
    } else if str_eq(ai.as_str(), "gptneo") {
        Backend::GptNeo(GPTNeo::new(accelerator_available))
    } else if str_eq(ai.as_str(), "gptneo1") {
        Backend::GptNeo1(GPTNeo1::new(params, accelerator_available))
    } else if str_eq(ai.as_str(), "prophetnet") {
        Backend::ProphetNet(ProphetNet::new(params, accelerator_available))
    } else {
        Backend::GptNeo(GPTNeo::new(accelerator_available))
    }
}

/// Selection law: every identifier outside the known family names — the
/// empty identifier included — resolves to the same fallback: the same
/// family with the same construction-time configuration.
pub proof fn lemma_unknown_id_selects_default(
    id1: Seq<char>,
    id2: Seq<char>,
    params: SamplingParams,
    accelerator_available: bool,
)
    requires
        !known_family(id1),
        !known_family(id2),
    ensures
        spec_backend(id1, params, accelerator_available) == spec_backend(
            id2,
            params,
            accelerator_available,
        ),
        family_for(id1) == Family::GptNeo,
{
}

/// The orchestrator: one selected backend behind the single call surface
/// every entry point funnels through.
pub struct Bert {
    pub ai: Backend,
}

impl Bert {
    /// Orchestrates one generation call. The engine outcome — the raw
    /// candidate sequences, or the engine's error message — is handed in
    /// by the hosting layer that ran the inference; the backend's
    /// post-processed text is wrapped with the original prompt. The
    /// `model` field is left for the caller to fill: a caller that needs
    /// the backend identity queries `name` separately. A backend failure
    /// propagates unchanged as a recoverable error.
    pub fn generate(&self, context: String, engine: Result<Vec<String>, String>) -> (r: Result<
        GenerateResponse,
        GenerationError,
    >)
        ensures
            match engine {
                Result::Err(m) => r matches Result::Err(GenerationError::Engine(m2)) && m2@ == m@,
                Result::Ok(outs) => if outs.len() == 0 {
                    r matches Result::Err(e) && e == GenerationError::NoOutput
                } else {
                    r matches Result::Ok(gr) && gr.model@ == Seq::<char>::empty() && gr.text@
                        == strip_occurrences(outs[0]@, context@) && gr.prompt@ == context@
                },
            },
    {
        let result = self.ai.respond(context.as_str(), engine);
        match result {
            Result::Ok(text) => Result::Ok(
                GenerateResponse { model: String::new(), text, prompt: context },
            ),
            Result::Err(e) => Result::Err(e),
        }
    }
}

/// Explicit startup factory for the fallback setup: the default backend
/// family, planned with max length 100, temperature 1.1 and nucleus
/// probability 0.9.
pub fn default_backend(accelerator_available: bool) -> (r: Bert)
    ensures
        r.ai == spec_backend(
            Seq::<char>::empty(),
            SamplingParams {
                max_tokens: 100u16,
                temperature_milli: 1100u32,
                top_p_milli: 900u32,
                stop_sequence: None,
            },
            accelerator_available,
        ),
        r.ai.family() == Family::GptNeo,
{
    let params = SamplingParams {
        max_tokens: 100,
        temperature_milli: 1100,
        top_p_milli: 900,
        stop_sequence: None,
    };
    proof {
        reveal_strlit("bart");
        reveal_strlit("mbart");
        reveal_strlit("m2m100");
        reveal_strlit("gpt2");
        reveal_strlit("gptneo");
        reveal_strlit("gptneo1");
        reveal_strlit("prophetnet");
        assert("bart"@.len() == 4);
        assert("mbart"@.len() == 5);
        assert("m2m100"@.len() == 6);
        assert("gpt2"@.len() == 4);
        assert("gptneo"@.len() == 6);
        assert("gptneo1"@.len() == 7);
        assert("prophetnet"@.len() == 10);
        assert(family_for(Seq::<char>::empty()) == Family::GptNeo);
    }
    Bert { ai: create_ai(String::new(), &params, accelerator_available) }
}

} // verus!
