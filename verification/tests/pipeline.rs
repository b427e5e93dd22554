use modelrun::codec::TextCodec;
use modelrun::compute_device;
use modelrun::errors::ModelError;
use modelrun::pipeline;

fn codec_with_vocab(n: u32) -> TextCodec {
    let pairs: Vec<(String, u32)> = (0..n).map(|i| (format!("t{}", i), i)).collect();
    let model = tokenizers::models::wordlevel::WordLevel::builder()
        .vocab(pairs.into_iter().collect())
        .unk_token("t0".to_string())
        .build()
        .expect("toy vocabulary must build");
    TextCodec::new(tokenizers::Tokenizer::new(model))
}

#[test]
fn empty_input_is_rejected_before_any_work() {
    let codec = codec_with_vocab(16);
    let device = compute_device::get();
    let r = pipeline::predict(&codec, &device, &Vec::new(), 16, 4, 0);
    assert!(matches!(r, Err(ModelError::EmptyInput)));
}

#[test]
fn out_of_vocabulary_id_is_rejected() {
    let codec = codec_with_vocab(16);
    let device = compute_device::get();
    let r = pipeline::predict(&codec, &device, &vec![1, 2, 99], 16, 4, 0);
    assert!(matches!(r, Err(ModelError::PipelineError)));
}

#[test]
fn zero_vocabulary_is_rejected() {
    let codec = codec_with_vocab(16);
    let device = compute_device::get();
    let r = pipeline::predict(&codec, &device, &vec![0], 0, 4, 0);
    assert!(matches!(r, Err(ModelError::PipelineError)));
}

#[test]
fn prediction_is_deterministic_for_a_fixed_seed() {
    let codec = codec_with_vocab(50);
    let device = compute_device::get();
    let tokens = vec![1, 4, 9, 16, 25];
    let first = pipeline::predict(&codec, &device, &tokens, 50, 8, 42).unwrap();
    let second = pipeline::predict(&codec, &device, &tokens, 50, 8, 42).unwrap();
    assert_eq!(first.token_id, second.token_id);
    let a: f32 = first.score.to_scalar().unwrap();
    let b: f32 = second.score.to_scalar().unwrap();
    assert_eq!(a.to_bits(), b.to_bits());
    assert_eq!(first.text, second.text);
}

#[test]
fn different_seeds_may_select_differently() {
    let codec = codec_with_vocab(50);
    let device = compute_device::get();
    let tokens = vec![1, 4, 9];
    let first = pipeline::predict(&codec, &device, &tokens, 50, 8, 1).unwrap();
    let second = pipeline::predict(&codec, &device, &tokens, 50, 8, 2).unwrap();
    assert!(first.token_id < 50 && second.token_id < 50);
}

#[test]
fn prediction_decodes_the_selected_token() {
    let codec = codec_with_vocab(50);
    let device = compute_device::get();
    let p = pipeline::predict(&codec, &device, &vec![3, 7], 50, 8, 5).unwrap();
    assert_eq!(p.text, format!("t{}", p.token_id));
}

#[test]
fn end_to_end_prediction_over_the_full_vocabulary() {
    let codec = codec_with_vocab(50257);
    let device = compute_device::get();
    let tokens = vec![15496, 0, 1374, 389, 345, 5633];
    let p = pipeline::predict(&codec, &device, &tokens, 50257, 256, 42).unwrap();
    assert!(p.token_id < 50257);
    assert!(!p.text.is_empty());
    let score: f32 = p.score.to_scalar().unwrap();
    assert!(score.is_finite());
}
