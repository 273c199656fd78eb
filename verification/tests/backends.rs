use bert_cli::ai::{Device, GenerationError};
use bert_cli::bart::Bart;
use bert_cli::config::SamplingParams;
use bert_cli::gpt2::GPT2;
use bert_cli::gptneo::GPTNeo;
use bert_cli::gptneo1::GPTNeo1;
use bert_cli::m2m100::M2M100;
use bert_cli::mbart::MBart;
use bert_cli::prophetnet::ProphetNet;

fn params(max_tokens: u16, temperature_milli: u32, top_p_milli: u32) -> SamplingParams {
    SamplingParams { max_tokens, temperature_milli, top_p_milli, stop_sequence: None }
}

const CONTEXT: &str =
    "Lots of Tesla cars to deliver before year end! Your support in taking delivery is much appreciated.";

const CONTINUATION: &str = " We will work through the weekend to hand over every car.";

fn echoing_engine_output() -> Result<Vec<String>, String> {
    Ok(vec![format!("{}{}", CONTEXT, CONTINUATION)])
}

#[test]
fn bart_construction_config() {
    let p = params(42, 1100, 900);
    let ai = Bart::new(&p, false);
    assert_eq!(ai.config.min_length, Some(10));
    assert_eq!(ai.config.max_length, Some(42));
    assert_eq!(ai.config.do_sample, Some(true));
    assert_eq!(ai.config.early_stopping, Some(false));
    assert_eq!(ai.config.repetition_penalty_milli, Some(1000));
    assert_eq!(ai.config.temperature_milli, Some(1100));
    assert_eq!(ai.config.top_p_milli, Some(900));
    assert_eq!(ai.config.top_k, Some(55));
    assert_eq!(ai.config.num_beams, None);
    assert_eq!(ai.config.num_return_sequences, None);
    assert_eq!(ai.config.device, Some(Device::Cpu));
}

#[test]
fn bart_accelerator_device() {
    let p = params(42, 1100, 900);
    let ai = Bart::new(&p, true);
    assert_eq!(ai.config.device, Some(Device::Cuda));
}

#[test]
fn mbart_construction_config() {
    let p = params(42, 900, 800);
    let ai = MBart::new(&p, false);
    assert_eq!(ai.config.min_length, Some(10));
    assert_eq!(ai.config.max_length, Some(42));
    assert_eq!(ai.config.repetition_penalty_milli, Some(1000));
    assert_eq!(ai.config.temperature_milli, Some(900));
    assert_eq!(ai.config.top_p_milli, Some(800));
    assert_eq!(ai.config.top_k, Some(55));
    assert_eq!(ai.config.num_beams, None);
}

#[test]
fn m2m100_beam_search_config() {
    let p = params(42, 900, 800);
    let ai = M2M100::new(&p, false);
    assert_eq!(ai.config.min_length, None);
    assert_eq!(ai.config.max_length, Some(42));
    assert_eq!(ai.config.do_sample, Some(true));
    assert_eq!(ai.config.num_beams, Some(5));
    assert_eq!(ai.config.num_return_sequences, Some(3));
    assert_eq!(ai.config.repetition_penalty_milli, None);
    assert_eq!(ai.config.top_k, None);
    assert_eq!(ai.config.temperature_milli, Some(900));
    assert_eq!(ai.config.top_p_milli, Some(800));
}

#[test]
fn gpt2_runs_on_engine_defaults() {
    let ai = GPT2::new();
    assert_eq!(ai.config.min_length, None);
    assert_eq!(ai.config.max_length, None);
    assert_eq!(ai.config.do_sample, None);
    assert_eq!(ai.config.early_stopping, None);
    assert_eq!(ai.config.repetition_penalty_milli, None);
    assert_eq!(ai.config.temperature_milli, None);
    assert_eq!(ai.config.top_p_milli, None);
    assert_eq!(ai.config.top_k, None);
    assert_eq!(ai.config.num_beams, None);
    assert_eq!(ai.config.num_return_sequences, None);
    assert_eq!(ai.config.device, None);
}

#[test]
fn gptneo_fixed_config() {
    let ai = GPTNeo::new(false);
    assert_eq!(ai.config.min_length, Some(10));
    assert_eq!(ai.config.max_length, Some(96));
    assert_eq!(ai.config.repetition_penalty_milli, Some(1000));
    assert_eq!(ai.config.temperature_milli, Some(3500));
    assert_eq!(ai.config.top_p_milli, Some(900));
    assert_eq!(ai.config.top_k, Some(55));
    assert_eq!(ai.config.device, Some(Device::Cpu));
}

#[test]
fn gptneo1_construction_config() {
    let p = params(42, 1100, 900);
    let ai = GPTNeo1::new(&p, false);
    assert_eq!(ai.config.min_length, Some(10));
    assert_eq!(ai.config.max_length, Some(42));
    assert_eq!(ai.config.repetition_penalty_milli, Some(1100));
    assert_eq!(ai.config.temperature_milli, Some(1100));
    assert_eq!(ai.config.top_p_milli, Some(900));
    assert_eq!(ai.config.top_k, Some(55));
}

#[test]
fn prophetnet_construction_config() {
    let p = params(42, 1100, 900);
    let ai = ProphetNet::new(&p, false);
    assert_eq!(ai.config.min_length, Some(10));
    assert_eq!(ai.config.max_length, Some(42));
    assert_eq!(ai.config.repetition_penalty_milli, Some(1100));
    assert_eq!(ai.config.temperature_milli, Some(1100));
    assert_eq!(ai.config.top_p_milli, Some(900));
    assert_eq!(ai.config.top_k, Some(55));
}

#[test]
fn forwarding_families_per_call_options() {
    let p = params(42, 1100, 900);
    for opts in [
        Bart::new(&p, false).call_options(&p),
        MBart::new(&p, false).call_options(&p),
        M2M100::new(&p, false).call_options(&p),
        GPT2::new().call_options(&p),
    ] {
        let o = opts.expect("these families forward per-call overrides");
        assert_eq!(o.max_length, 42);
        assert!(o.do_sample);
        assert!(!o.early_stopping);
        assert_eq!(o.repetition_penalty_milli, 1100);
        assert_eq!(o.temperature_milli, 1100);
        assert_eq!(o.top_p_milli, 900);
        assert_eq!(o.top_k, 10);
    }
}

#[test]
fn ignoring_families_pass_no_options() {
    let p = params(42, 1100, 900);
    assert_eq!(GPTNeo::new(false).call_options(&p), None);
    assert_eq!(GPTNeo1::new(&p, false).call_options(&p), None);
    assert_eq!(ProphetNet::new(&p, false).call_options(&p), None);
}

#[test]
fn family_names() {
    let p = params(42, 1100, 900);
    assert_eq!(Bart::new(&p, false).name(), "bart");
    assert_eq!(MBart::new(&p, false).name(), "mbart");
    assert_eq!(M2M100::new(&p, false).name(), "m2m100");
    assert_eq!(GPT2::new().name(), "gpt2");
    assert_eq!(GPTNeo::new(false).name(), "gptneo");
    assert_eq!(GPTNeo1::new(&p, false).name(), "gptneo");
    assert_eq!(ProphetNet::new(&p, false).name(), "prophetnet");
}

#[test]
fn bart_respond_strips_echo() {
    let p = params(42, 1100, 900);
    let ai = Bart::new(&p, false);
    let output = ai.respond(CONTEXT, echoing_engine_output()).unwrap();
    assert_ne!(output, CONTEXT);
    assert_ne!(output.len(), 0);
    assert!(output.len() > 10);
    assert_eq!(output, CONTINUATION);
}

#[test]
fn gpt2_respond_strips_echo() {
    let ai = GPT2::new();
    let output = ai.respond(CONTEXT, echoing_engine_output()).unwrap();
    assert_ne!(output, CONTEXT);
    assert!(output.len() > 10);
    assert_eq!(output, CONTINUATION);
}

#[test]
fn gptneo_respond_strips_echo() {
    let ai = GPTNeo::new(false);
    let output = ai.respond(CONTEXT, echoing_engine_output()).unwrap();
    assert_ne!(output, CONTEXT);
    assert!(output.len() > 10);
    assert_eq!(output, CONTINUATION);
}

#[test]
fn gptneo1_respond_strips_echo() {
    let p = params(42, 1100, 900);
    let ai = GPTNeo1::new(&p, false);
    let output = ai.respond(CONTEXT, echoing_engine_output()).unwrap();
    assert_eq!(output, CONTINUATION);
}

#[test]
fn m2m100_respond_strips_echo() {
    let p = params(42, 900, 800);
    let ai = M2M100::new(&p, false);
    let output = ai.respond(CONTEXT, echoing_engine_output()).unwrap();
    assert_eq!(output, CONTINUATION);
}

#[test]
fn mbart_respond_strips_echo() {
    let p = params(42, 900, 800);
    let ai = MBart::new(&p, false);
    let output = ai.respond(CONTEXT, echoing_engine_output()).unwrap();
    assert_eq!(output, CONTINUATION);
}

#[test]
fn prophetnet_respond_strips_echo() {
    let p = params(42, 1100, 900);
    let ai = ProphetNet::new(&p, false);
    let output = ai.respond(CONTEXT, echoing_engine_output()).unwrap();
    assert_eq!(output, CONTINUATION);
}

#[test]
fn respond_surfaces_engine_error() {
    let p = params(42, 1100, 900);
    let ai = Bart::new(&p, false);
    let err = ai.respond(CONTEXT, Err("device out of memory".to_string())).unwrap_err();
    assert_eq!(err, GenerationError::Engine("device out of memory".to_string()));
    assert_eq!(err.describe(), "engine failure: device out of memory");
}

#[test]
fn respond_surfaces_empty_candidate_list() {
    let p = params(42, 1100, 900);
    let ai = Bart::new(&p, false);
    let err = ai.respond(CONTEXT, Ok(Vec::new())).unwrap_err();
    assert_eq!(err, GenerationError::NoOutput);
    assert_eq!(err.describe(), "engine returned no output");
}

#[test]
fn max_tokens_one_is_degenerate_but_valid() {
    let p = SamplingParams::new(1, 900, 900, None).expect("one token is a valid length");
    let ai = Bart::new(&p, false);
    assert_eq!(ai.config.max_length, Some(1));
    let o = ai.call_options(&p).unwrap();
    assert_eq!(o.max_length, 1);
    let out = ai.respond("Hi", Ok(vec!["Hi!".to_string()])).unwrap();
    assert_eq!(out, "!");
}
