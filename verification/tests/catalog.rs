use modelrun::errors::ModelError;
use modelrun::hf_repo::models;

#[test]
fn known_models_have_nonempty_weights() {
    let catalog = models::get();
    let ids = [
        "mistralai/Mistral-7B-v0.1",
        "meta-llama/Llama-2-7b-chat-hf",
        "meta-llama/Llama-2-13b-chat-hf",
        "meta-llama/Llama-2-70b-chat-hf",
    ];
    for id in ids {
        let details = catalog.lookup(&id.to_string()).expect("catalog entry must resolve");
        assert!(!details.weights_filename.is_empty());
        assert_eq!(details.weights_filename, "model.safetensors");
    }
}

#[test]
fn unknown_model_is_rejected() {
    let catalog = models::get();
    let r = catalog.lookup(&"openai/gpt-99".to_string());
    assert!(matches!(r, Err(ModelError::UnknownModel)));
}

#[test]
fn tokenizer_filenames_match_the_table() {
    let catalog = models::get();
    let mistral = catalog.lookup(&"mistralai/Mistral-7B-v0.1".to_string()).unwrap();
    assert_eq!(mistral.tokenizer_filename.as_deref(), Some("tokenizer.json"));
    let llama = catalog.lookup(&"meta-llama/Llama-2-7b-chat-hf".to_string()).unwrap();
    assert!(llama.tokenizer_filename.is_none());
}

#[test]
fn artifact_planning_resolves_known_models_only() {
    let catalog = models::get();
    let details =
        modelrun::hf_repo::plan_model_artifacts(&catalog, &"mistralai/Mistral-7B-v0.1".to_string())
            .expect("a cataloged model must resolve to its artifact set");
    assert_eq!(details.weights_filename, "model.safetensors");
    assert_eq!(details.tokenizer_filename.as_deref(), Some("tokenizer.json"));
    let unknown = modelrun::hf_repo::plan_model_artifacts(&catalog, &"nobody/unknown".to_string());
    assert!(matches!(unknown, Err(ModelError::UnknownModel)));
}
