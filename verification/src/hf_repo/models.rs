//! The static catalog that maps a model identifier to its artifact filenames.

use vstd::prelude::*;

use crate::errors::ModelError;

verus! {

/// The artifact filenames of one supported model: the weights file is always
/// present, the tokenizer file may be absent when the model ships none.
pub struct ModelDetails {
    pub weights_filename: String,
    pub tokenizer_filename: Option<String>,
}

impl ModelDetails {
    /// A usable entry always names a weights artifact.
    pub open spec fn wf(self) -> bool {
        self.weights_filename@.len() > 0
    }
}

/// One catalog row: an identifier and the artifacts it requires.
pub struct CatalogEntry {
    pub model_id: String,
    pub details: ModelDetails,
}

/// The read-only table of supported models. Populated once; never mutated.
pub struct ModelCatalog {
    pub entries: Vec<CatalogEntry>,
}

impl ModelCatalog {
    /// Identifiers are unique and every entry names a non-empty weights file.
    pub open spec fn wf(self) -> bool {
        &&& forall|i: int|
            0 <= i < self.entries@.len() ==> (#[trigger] self.entries@[i]).details.wf()
        &&& forall|i: int, j: int|
            0 <= i < j < self.entries@.len() ==> self.entries@[i].model_id@
                != self.entries@[j].model_id@
    }

    /// Whether some entry carries the given identifier.
    pub open spec fn contains_model(self, id: Seq<char>) -> bool {
        exists|i: int| 0 <= i < self.entries@.len() && (#[trigger] self.entries@[i]).model_id@ == id
    }

    /// Looks an identifier up in the table.
    ///
    /// Succeeds exactly on the identifiers the catalog holds, with that
    /// entry's details; an absent identifier is reported as `UnknownModel`
    /// and nothing else is attempted.
    pub fn lookup(&self, model_id: &String) -> (r: Result<&ModelDetails, ModelError>)
        requires
            self.wf(),
        ensures
            r is Ok <==> self.contains_model(model_id@),
            r is Err ==> r == Err::<&ModelDetails, ModelError>(ModelError::UnknownModel),
            r is Ok ==> exists|i: int|
                0 <= i < self.entries@.len() && (#[trigger] self.entries@[i]).model_id@
                    == model_id@ && *r.unwrap() == self.entries@[i].details,
            r is Ok ==> r.unwrap().weights_filename@.len() > 0,
    {
        let n = self.entries.len();
        let mut k: usize = 0;
        while k < n
            invariant
                n == self.entries@.len(),
                0 <= k <= n,
                self.wf(),
                forall|i: int| 0 <= i < k ==> (#[trigger] self.entries@[i]).model_id@ != model_id@,
            decreases n - k,
        {
            if self.entries[k].model_id == *model_id {
                return Ok(&self.entries[k].details);
            }
            k += 1;
        }
        Err(ModelError::UnknownModel)
    }
}

/// Builds the fixed table of supported models.
///
/// Ensures the table is well formed and states each row exactly, so callers
/// know both which identifiers succeed and which filenames they resolve to.
pub fn get() -> (c: ModelCatalog)
    ensures
        c.wf(),
        c.entries@.len() == 4,
        c.entries@[0].model_id@ == "mistralai/Mistral-7B-v0.1"@,
        c.entries@[1].model_id@ == "meta-llama/Llama-2-7b-chat-hf"@,
        c.entries@[2].model_id@ == "meta-llama/Llama-2-13b-chat-hf"@,
        c.entries@[3].model_id@ == "meta-llama/Llama-2-70b-chat-hf"@,
        forall|i: int|
            0 <= i < 4 ==> (#[trigger] c.entries@[i]).details.weights_filename@
                == "model.safetensors"@,
        c.entries@[0].details.tokenizer_filename is Some
            && c.entries@[0].details.tokenizer_filename.unwrap()@ == "tokenizer.json"@,
        forall|i: int|
            1 <= i < 4 ==> (#[trigger] c.entries@[i]).details.tokenizer_filename is None,
{
    proof {
        reveal_strlit("mistralai/Mistral-7B-v0.1");
        reveal_strlit("meta-llama/Llama-2-7b-chat-hf");
        reveal_strlit("meta-llama/Llama-2-13b-chat-hf");
        reveal_strlit("meta-llama/Llama-2-70b-chat-hf");
        reveal_strlit("model.safetensors");
        reveal_strlit("tokenizer.json");
    }
    let mut entries: Vec<CatalogEntry> = Vec::new();
    entries.push(
        CatalogEntry {
            model_id: "mistralai/Mistral-7B-v0.1".to_owned(),
            details: ModelDetails {
                weights_filename: "model.safetensors".to_owned(),
                tokenizer_filename: Some("tokenizer.json".to_owned()),
            },
        },
    );
    entries.push(
        CatalogEntry {
            model_id: "meta-llama/Llama-2-7b-chat-hf".to_owned(),
            details: ModelDetails {
                weights_filename: "model.safetensors".to_owned(),
                tokenizer_filename: None,
            },
        },
    );
    entries.push(
        CatalogEntry {
            model_id: "meta-llama/Llama-2-13b-chat-hf".to_owned(),
            details: ModelDetails {
                weights_filename: "model.safetensors".to_owned(),
                tokenizer_filename: None,
            },
        },
    );
    entries.push(
        CatalogEntry {
            model_id: "meta-llama/Llama-2-70b-chat-hf".to_owned(),
            details: ModelDetails {
                weights_filename: "model.safetensors".to_owned(),
                tokenizer_filename: None,
            },
        },
    );
    proof {
        assert(entries@.len() == 4);
        assert("mistralai/Mistral-7B-v0.1"@.len() == 25);
        assert("meta-llama/Llama-2-7b-chat-hf"@.len() == 29);
        assert("meta-llama/Llama-2-13b-chat-hf"@.len() == 30);
        assert("meta-llama/Llama-2-70b-chat-hf"@.len() == 30);
        assert("meta-llama/Llama-2-13b-chat-hf"@[19] == '1');
        assert("meta-llama/Llama-2-70b-chat-hf"@[19] == '7');
        assert("model.safetensors"@.len() == 17);
        assert(forall|i: int| 0 <= i < 4 ==> (#[trigger] entries@[i]).details.wf());
    }
    ModelCatalog { entries }
}

} // verus!
