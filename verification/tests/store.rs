use modelrun::errors::FetchFailure;
use modelrun::errors::ModelError;
use modelrun::hf_repo::ArtifactStore;
use modelrun::hf_repo::FetchOutcome;
use modelrun::hf_repo::FetchPlan;

fn store() -> ArtifactStore {
    ArtifactStore::new("/tmp/model-cache".to_string(), None)
}

#[test]
fn cache_path_is_deterministic() {
    let s = store();
    let id = "org/model".to_string();
    let f = "model.safetensors".to_string();
    let first = s.cache_path(&id, &f);
    let second = s.cache_path(&id, &f);
    assert_eq!(first, second);
    assert_eq!(first, "/tmp/model-cache/org/model/model.safetensors");
}

#[test]
fn warm_cache_is_never_fetched_again() {
    let s = store();
    assert_eq!(s.plan_fetch(true), FetchPlan::UseCached);
    assert_eq!(s.plan_fetch(false), FetchPlan::Download);
}

#[test]
fn complete_transfer_is_committed() {
    let s = store();
    let id = "org/model".to_string();
    let f = "weights.bin".to_string();
    let r = s.accept_outcome(&id, &f, FetchOutcome::Complete { size: 10 }, Some(10));
    assert_eq!(r.unwrap(), s.cache_path(&id, &f));
    let unknown_size = s.accept_outcome(&id, &f, FetchOutcome::Complete { size: 10 }, None);
    assert!(unknown_size.is_ok());
}

#[test]
fn short_transfer_exposes_no_path() {
    let s = store();
    let id = "org/model".to_string();
    let f = "weights.bin".to_string();
    let r = s.accept_outcome(&id, &f, FetchOutcome::Complete { size: 9 }, Some(10));
    assert_eq!(
        r.unwrap_err(),
        ModelError::ArtifactFetchFailed {
            model_id: id.clone(),
            filename: f.clone(),
            cause: FetchFailure::Incomplete,
        }
    );
}

#[test]
fn interrupted_transfer_exposes_no_path() {
    let s = store();
    let id = "org/model".to_string();
    let f = "weights.bin".to_string();
    let r = s.accept_outcome(&id, &f, FetchOutcome::Interrupted, Some(10));
    assert_eq!(
        r.unwrap_err(),
        ModelError::ArtifactFetchFailed {
            model_id: id.clone(),
            filename: f.clone(),
            cause: FetchFailure::Incomplete,
        }
    );
}

#[test]
fn unauthorized_is_distinct_from_not_found() {
    let s = store();
    let id = "org/private-model".to_string();
    let f = "weights.bin".to_string();
    let unauthorized = s.accept_outcome(&id, &f, FetchOutcome::HttpStatus { code: 401 }, None);
    assert_eq!(unauthorized.unwrap_err(), ModelError::Unauthorized);
    let forbidden = s.accept_outcome(&id, &f, FetchOutcome::HttpStatus { code: 403 }, None);
    assert_eq!(forbidden.unwrap_err(), ModelError::Unauthorized);
    let missing = s.accept_outcome(&id, &f, FetchOutcome::HttpStatus { code: 404 }, None);
    assert_eq!(
        missing.unwrap_err(),
        ModelError::ArtifactFetchFailed {
            model_id: id.clone(),
            filename: f.clone(),
            cause: FetchFailure::NotFound,
        }
    );
    let network = s.accept_outcome(&id, &f, FetchOutcome::NetworkError, None);
    assert_ne!(network.unwrap_err(), ModelError::Unauthorized);
}

#[test]
fn credential_is_carried() {
    let with = ArtifactStore::new("/tmp/c".to_string(), Some("SECRET-REDACTED".to_string()));
    assert!(with.has_credential());
    assert!(!store().has_credential());
}
