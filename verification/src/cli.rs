//! The command-line surface's decisions: what a parsed invocation asks
//! the orchestrator to do. Argument parsing itself is the hosting
//! process's concern; it hands the parsed shape in as plain values.
use vstd::prelude::*;

use crate::config::SamplingParams;

verus! {

/// Fixed defaults of the plain invocation: max length 200, temperature
/// 0.9, nucleus probability 0.9, no stop sequence.
pub const DEFAULT_MAX_TOKENS: u16 = 200;

pub const DEFAULT_TEMPERATURE_MILLI: u32 = 900;

pub const DEFAULT_TOP_P_MILLI: u32 = 900;

/// One parsed subcommand.
#[derive(Debug, PartialEq, Eq)]
pub enum Command {
    /// Explicit generation with every knob spelled out.
    Generate {
        token_max_length: u16,
        temperature_milli: u32,
        top_p_milli: u32,
        stop_sequence: Option<String>,
        context: String,
    },
    /// Classification is accepted as a parse target but not implemented.
    Classify { labels: Vec<String>, sequence: String },
}

/// What one invocation asks for.
#[derive(Debug, PartialEq, Eq)]
pub enum CliPlan {
    /// Run a generation with these parameters and prompt.
    Run { params: SamplingParams, context: String },
    /// Terminate with an explicit not-implemented failure, never a
    /// generated-text output.
    NotImplemented,
}

/// Decides what a parsed invocation does: an explicit `Generate` carries
/// its own knobs; no subcommand runs on the fixed defaults with the
/// positional context (empty when absent); `Classify` must fail loudly.
pub fn plan(command: Option<Command>, context: Option<String>) -> (r: CliPlan)
    ensures
        match command {
            Option::Some(
                Command::Generate {
                    token_max_length,
                    temperature_milli,
                    top_p_milli,
                    stop_sequence,
                    context: c,
                },
            ) => r matches CliPlan::Run { params, context: rc } && params.max_tokens
                == token_max_length && params.temperature_milli == temperature_milli
                && params.top_p_milli == top_p_milli && params.stop_sequence == stop_sequence && rc
                == c,
            Option::Some(Command::Classify { .. }) => r is NotImplemented,
            Option::None => r matches CliPlan::Run { params, context: rc } && params.max_tokens
                == DEFAULT_MAX_TOKENS && params.temperature_milli == DEFAULT_TEMPERATURE_MILLI
                && params.top_p_milli == DEFAULT_TOP_P_MILLI && params.stop_sequence is None && rc@
                == (match context {
                Option::Some(s) => s@,
                Option::None => Seq::<char>::empty(),
            }),
        },
{
    match command {
        Option::Some(
            Command::Generate {
                token_max_length,
                temperature_milli,
                top_p_milli,
                stop_sequence,
                context: c,
            },
        ) => CliPlan::Run {
            params: SamplingParams {
                max_tokens: token_max_length,
                temperature_milli,
                top_p_milli,
                stop_sequence,
            },
            context: c,
        },
        Option::Some(Command::Classify { .. }) => CliPlan::NotImplemented,
        Option::None => {
            let c = match context {
                Option::Some(s) => s,
                Option::None => String::new(),
            };
            CliPlan::Run {
                params: SamplingParams {
                    max_tokens: DEFAULT_MAX_TOKENS,
                    temperature_milli: DEFAULT_TEMPERATURE_MILLI,
                    top_p_milli: DEFAULT_TOP_P_MILLI,
                    stop_sequence: None,
                },
                context: c,
            }
        },
    }
}

} // verus!
