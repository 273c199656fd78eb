//! The uniform request shape: the sampling knobs every backend accepts,
//! and the startup configuration of the serving process.
use vstd::prelude::*;

verus! {

/// The tunable generation knobs, normalized across all backends.
///
/// Temperature and nucleus probability are kept in thousandths: `900`
/// stands for a knob setting of 0.9. The engine adapter divides by 1000
/// on its side of the boundary.
#[derive(Clone, Debug, PartialEq, Eq)]
pub struct SamplingParams {
    pub max_tokens: u16,
    pub temperature_milli: u32,
    pub top_p_milli: u32,
    pub stop_sequence: Option<String>,
}

impl SamplingParams {
    /// Valid ranges: at least one token, a strictly positive temperature,
    /// and a nucleus probability in (0, 1].
    pub open spec fn valid(&self) -> bool {
        &&& self.max_tokens >= 1
        &&& self.temperature_milli >= 1
        &&& 1 <= self.top_p_milli <= 1000
    }

    /// Builds a parameter record, accepting exactly the valid ranges.
    pub fn new(
        max_tokens: u16,
        temperature_milli: u32,
        top_p_milli: u32,
        stop_sequence: Option<String>,
    ) -> (r: Option<SamplingParams>)
        ensures
            match r {
                Some(p) => {
                    &&& p.valid()
                    &&& p.max_tokens == max_tokens
                    &&& p.temperature_milli == temperature_milli
                    &&& p.top_p_milli == top_p_milli
                    &&& p.stop_sequence == stop_sequence
                },
                None => !(max_tokens >= 1 && temperature_milli >= 1 && 1 <= top_p_milli
                    <= 1000),
            },
    {
        if max_tokens >= 1 && temperature_milli >= 1 && 1 <= top_p_milli && top_p_milli <= 1000 {
            Some(
                SamplingParams {
                    max_tokens,
                    temperature_milli,
                    top_p_milli,
                    stop_sequence,
                },
            )
        } else {
            None
        }
    }
}

/// The startup configuration of the serving process: which backend to
/// load and the sampling knobs fixed at construction time.
#[derive(Clone, Debug)]
pub struct Config {
    pub model: String,
    pub token_max_length: u16,
    pub temperature_milli: u32,
    pub top_p_milli: u32,
}

impl Config {
    /// The sampling parameters this configuration stands for; the service
    /// configuration carries no stop sequence.
    pub fn params(&self) -> (r: SamplingParams)
        ensures
            r.max_tokens == self.token_max_length,
            r.temperature_milli == self.temperature_milli,
            r.top_p_milli == self.top_p_milli,
            r.stop_sequence is None,
    {
        SamplingParams {
            max_tokens: self.token_max_length,
            temperature_milli: self.temperature_milli,
            top_p_milli: self.top_p_milli,
            stop_sequence: None,
        }
    }
}

} // verus!
