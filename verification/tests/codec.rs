use modelrun::codec::TextCodec;
use modelrun::errors::ModelError;

fn toy_codec() -> TextCodec {
    let words = ["hello", "world", "how", "are", "you", "today", "<unk>"];
    let pairs: Vec<(String, u32)> =
        words.iter().enumerate().map(|(i, w)| (w.to_string(), i as u32)).collect();
    let model = tokenizers::models::wordlevel::WordLevel::builder()
        .vocab(pairs.into_iter().collect())
        .unk_token("<unk>".to_string())
        .build()
        .expect("toy vocabulary must build");
    let mut tokenizer = tokenizers::Tokenizer::new(model);
    tokenizer.with_pre_tokenizer(Some(tokenizers::pre_tokenizers::whitespace::WhitespaceSplit));
    TextCodec::new(tokenizer)
}

#[test]
fn encode_maps_words_to_their_ids() {
    let codec = toy_codec();
    let ids = codec.encode("hello world", false).unwrap();
    assert_eq!(ids, vec![0, 1]);
}

#[test]
fn round_trip_reproduces_the_text() {
    let codec = toy_codec();
    for text in ["hello world", "how are you today", "hello", "you are hello world today"] {
        let ids = codec.encode(text, false).unwrap();
        let back = codec.decode(&ids, false).unwrap();
        assert_eq!(back, text);
    }
}

#[test]
fn vocab_size_counts_the_vocabulary() {
    let codec = toy_codec();
    assert_eq!(codec.vocab_size(true), 7);
}

#[test]
fn unknown_word_falls_back_to_the_unknown_token() {
    let codec = toy_codec();
    let ids = codec.encode("hello stranger", false).unwrap();
    assert_eq!(ids, vec![0, 6]);
}

#[test]
fn decode_of_each_id_is_nonempty() {
    let codec = toy_codec();
    for id in 0u32..7 {
        let text = codec.decode(&vec![id], false).unwrap();
        assert!(!text.is_empty());
    }
}

#[test]
fn empty_text_encodes_to_no_ids() {
    let codec = toy_codec();
    let r = codec.encode("", false);
    match r {
        Ok(ids) => assert!(ids.is_empty()),
        Err(e) => assert_eq!(e, ModelError::CodecError),
    }
}
