//! The artifact store: cache paths, fetch planning, and outcome validation.
//!
//! Network and disk traffic stay with the caller: this module decides. The
//! caller reports the state of the cache and the outcome of a transfer; the
//! store computes the canonical cache path, says whether a download is needed
//! at all, and classifies the outcome, committing a path only for a complete
//! transfer. A partial file is therefore never exposed at the cache path.

use vstd::prelude::*;
use vstd::string::*;

use crate::errors::FetchFailure;
use crate::errors::ModelError;

pub mod models;

use crate::hf_repo::models::ModelCatalog;
use crate::hf_repo::models::ModelDetails;

verus! {

/// Resolves the artifact set of a model from the catalog before any
/// transfer is planned: an unknown identifier yields `UnknownModel` and no
/// artifact set at all, so no fetch is ever attempted for it; a known one
/// yields exactly its catalog entry's filenames.
pub fn plan_model_artifacts(catalog: &ModelCatalog, model_id: &String) -> (r: Result<
    ModelDetails,
    ModelError,
>)
    requires
        catalog.wf(),
    ensures
        r is Ok <==> catalog.contains_model(model_id@),
        r is Err ==> r == Err::<ModelDetails, ModelError>(ModelError::UnknownModel),
        r matches Ok(d) ==> exists|i: int|
            0 <= i < catalog.entries@.len() && (#[trigger] catalog.entries@[i]).model_id@
                == model_id@ && d == catalog.entries@[i].details,
        r matches Ok(d) ==> d.weights_filename@.len() > 0,
{
    match catalog.lookup(model_id) {
        Ok(d) => Ok(
            ModelDetails {
                weights_filename: d.weights_filename.clone(),
                tokenizer_filename: match &d.tokenizer_filename {
                    Some(s) => Some(s.clone()),
                    None => None,
                },
            },
        ),
        Err(e) => Err(e),
    }
}

/// What a driver found at the canonical cache path before fetching, reduced
/// to the one fact the plan depends on: whether a complete file is there.
#[derive(Debug, Clone, Copy, PartialEq, Eq, Structural)]
pub enum FetchPlan {
    /// A complete file is already cached: return its path, fetch nothing.
    UseCached,
    /// Nothing usable is cached: transfer to a temporary path, then report
    /// the outcome to `accept_outcome`.
    Download,
}

/// How a transfer ended, as reported by the driver that performed it.
#[derive(Debug, Clone, Copy, PartialEq, Eq, Structural)]
pub enum FetchOutcome {
    /// The whole body arrived and `size` bytes were written out.
    Complete { size: u64 },
    /// The hub answered with a non-success HTTP status.
    HttpStatus { code: u16 },
    /// The request failed before any response arrived.
    NetworkError,
    /// The connection broke in the middle of the body.
    Interrupted,
}

/// The canonical cache location of one artifact: a function of the cache
/// root and the (model identifier, filename) key and of nothing else.
pub open spec fn spec_cache_path(root: Seq<char>, model_id: Seq<char>, filename: Seq<char>) -> Seq<
    char,
> {
    root + "/"@ + model_id + "/"@ + filename
}

/// The plan for a given cache state: a warm cache is used as it stands.
pub open spec fn spec_plan(cached_complete: bool) -> FetchPlan {
    if cached_complete {
        FetchPlan::UseCached
    } else {
        FetchPlan::Download
    }
}

/// Whether an outcome means the credential was missing or rejected.
pub open spec fn spec_auth_rejected(outcome: FetchOutcome) -> bool {
    outcome matches FetchOutcome::HttpStatus { code } && (code == 401 || code == 403)
}

/// The failure cause reported for an outcome that is not accepted.
pub open spec fn spec_fetch_cause(outcome: FetchOutcome) -> FetchFailure {
    match outcome {
        FetchOutcome::Complete { .. } => FetchFailure::Incomplete,
        FetchOutcome::HttpStatus { code } => if code == 404 {
            FetchFailure::NotFound
        } else {
            FetchFailure::Server(code)
        },
        FetchOutcome::NetworkError => FetchFailure::Network,
        FetchOutcome::Interrupted => FetchFailure::Incomplete,
    }
}

/// Resolves model artifacts to locally cached file paths.
///
/// The store owns the cache layout and the optional bearer credential; a
/// driver performs the transfers it plans and feeds the outcomes back.
pub struct ArtifactStore {
    pub cache_root: String,
    pub credential: Option<String>,
}

impl ArtifactStore {
    /// A store over the given cache root, with an optional bearer
    /// credential. Without one, only public artifacts are reachable.
    pub fn new(cache_root: String, credential: Option<String>) -> (s: Self)
        ensures
            s.cache_root == cache_root,
            s.credential == credential,
    {
        ArtifactStore { cache_root, credential }
    }

    /// Whether a bearer credential was configured.
    pub open spec fn authenticated(self) -> bool {
        self.credential is Some
    }

    /// Whether a bearer credential was configured.
    pub fn has_credential(&self) -> (b: bool)
        ensures
            b == self.authenticated(),
    {
        match &self.credential {
            Some(_) => true,
            None => false,
        }
    }

    /// The canonical cache path for one artifact: deterministic in the
    /// (model identifier, filename) key, so repeated fetches of one artifact
    /// always resolve to one location.
    pub fn cache_path(&self, model_id: &String, filename: &String) -> (r: String)
        ensures
            r@ == spec_cache_path(self.cache_root@, model_id@, filename@),
    {
        let mut p = self.cache_root.clone();
        p.append("/");
        p.append(model_id.as_str());
        p.append("/");
        p.append(filename.as_str());
        p
    }

    /// Decides whether a fetch is needed: a complete cached file is reused
    /// as it stands and no transfer is planned for it.
    pub fn plan_fetch(&self, cached_complete: bool) -> (p: FetchPlan)
        ensures
            p == spec_plan(cached_complete),
    {
        if cached_complete {
            FetchPlan::UseCached
        } else {
            FetchPlan::Download
        }
    }

    /// Classifies how a transfer ended. Only a complete transfer whose size
    /// agrees with the expected remote size (when one is known) may be moved
    /// to the canonical path, and only then is that path handed out; a 401
    /// or 403 is reported as `Unauthorized`, distinct from every other
    /// failure, which keeps the cache untouched.
    pub fn accept_outcome(
        &self,
        model_id: &String,
        filename: &String,
        outcome: FetchOutcome,
        expected_size: Option<u64>,
    ) -> (r: Result<String, ModelError>)
        ensures
            r is Ok <==> (outcome matches FetchOutcome::Complete { size } && (expected_size
                matches Some(e) ==> size == e)),
            r is Ok ==> r.unwrap()@ == spec_cache_path(self.cache_root@, model_id@, filename@),
            r is Err ==> r == Err::<String, ModelError>(
                if spec_auth_rejected(outcome) {
                    ModelError::Unauthorized
                } else {
                    (ModelError::ArtifactFetchFailed {
                        model_id: *model_id,
                        filename: *filename,
                        cause: spec_fetch_cause(outcome),
                    })
                },
            ),
    {
        match outcome {
            FetchOutcome::Complete { size } => {
                let size_ok = match expected_size {
                    Some(e) => size == e,
                    None => true,
                };
                if size_ok {
                    Ok(self.cache_path(model_id, filename))
                } else {
                    Err(ModelError::ArtifactFetchFailed {
                        model_id: model_id.clone(),
                        filename: filename.clone(),
                        cause: FetchFailure::Incomplete,
                    })
                }
            },
            FetchOutcome::HttpStatus { code } => {
                if code == 401 || code == 403 {
                    Err(ModelError::Unauthorized)
                } else if code == 404 {
                    Err(ModelError::ArtifactFetchFailed {
                        model_id: model_id.clone(),
                        filename: filename.clone(),
                        cause: FetchFailure::NotFound,
                    })
                } else {
                    Err(ModelError::ArtifactFetchFailed {
                        model_id: model_id.clone(),
                        filename: filename.clone(),
                        cause: FetchFailure::Server(code),
                    })
                }
            },
            FetchOutcome::NetworkError => Err(ModelError::ArtifactFetchFailed {
                model_id: model_id.clone(),
                filename: filename.clone(),
                cause: FetchFailure::Network,
            }),
            FetchOutcome::Interrupted => Err(ModelError::ArtifactFetchFailed {
                model_id: model_id.clone(),
                filename: filename.clone(),
                cause: FetchFailure::Incomplete,
            }),
        }
    }
}

/// Fetching is idempotent over a warm cache: once an artifact's complete
/// file is cached, any later fetch of the same key over the same cache root
/// plans no transfer at all, and resolves to the same canonical path as the
/// first fetch, the path being a function of the cache root and the key
/// alone.
pub proof fn lemma_fetch_idempotent(
    first: ArtifactStore,
    second: ArtifactStore,
    model_id: Seq<char>,
    filename: Seq<char>,
)
    requires
        first.cache_root@ == second.cache_root@,
    ensures
        spec_plan(true) == FetchPlan::UseCached,
        spec_cache_path(first.cache_root@, model_id, filename) == spec_cache_path(
            second.cache_root@,
            model_id,
            filename,
        ),
{
}

} // verus!
