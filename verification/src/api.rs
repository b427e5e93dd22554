//! Hub model listings, reduced to the plain records this crate reads.
//!
//! A driver that queries the hub's model-listing endpoint hands the raw
//! fields over as a `ModelRecord`; turning a record into a presentable
//! `ModelInfo`, with the documented default for every absent field, is done
//! and checked here.

use vstd::prelude::*;

verus! {

/// A presentable summary of one hub model listing.
pub struct ModelInfo {
    pub model_id: String,
    pub name: String,
    pub created_at: String,
    pub downloads: usize,
    pub likes: usize,
    pub private: bool,
    pub license: Option<String>,
    pub tags: Vec<String>,
    pub library_name: Option<String>,
    pub pipeline_tag: Option<String>,
}

/// The raw fields of one hub model listing. A field is `None` when the
/// listing lacks it or carries it at an unexpected type.
pub struct ModelRecord {
    pub id: Option<String>,
    pub name: Option<String>,
    pub created_at: Option<String>,
    pub downloads: Option<u64>,
    pub likes: Option<u64>,
    pub private: Option<bool>,
    pub license: Option<String>,
    pub tags: Option<Vec<String>>,
    pub library_name: Option<String>,
    pub pipeline_tag: Option<String>,
}

/// How a summary relates to the record it was built from: present fields are
/// kept, absent ones take the documented defaults (empty text, zero counts,
/// public visibility, no tags).
pub open spec fn info_matches_record(info: ModelInfo, raw: ModelRecord) -> bool {
    &&& info.model_id@ == (match raw.id {
        Some(s) => s@,
        None => Seq::<char>::empty(),
    })
    &&& info.name@ == (match raw.name {
        Some(s) => s@,
        None => Seq::<char>::empty(),
    })
    &&& info.created_at@ == (match raw.created_at {
        Some(s) => s@,
        None => Seq::<char>::empty(),
    })
    &&& info.downloads == (match raw.downloads {
        Some(d) => d as usize,
        None => 0usize,
    })
    &&& info.likes == (match raw.likes {
        Some(l) => l as usize,
        None => 0usize,
    })
    &&& info.private == (match raw.private {
        Some(p) => p,
        None => false,
    })
    &&& info.license == raw.license
    &&& info.tags@ == (match raw.tags {
        Some(t) => t@,
        None => Seq::<String>::empty(),
    })
    &&& info.library_name == raw.library_name
    &&& info.pipeline_tag == raw.pipeline_tag
}

/// Builds the summary of one raw record, defaulting every absent field.
pub fn model_info_from_record(raw: ModelRecord) -> (r: ModelInfo)
    ensures
        info_matches_record(r, raw),
{
    let ModelRecord {
        id,
        name,
        created_at,
        downloads,
        likes,
        private,
        license,
        tags,
        library_name,
        pipeline_tag,
    } = raw;
    ModelInfo {
        model_id: match id {
            Some(s) => s,
            None => String::new(),
        },
        name: match name {
            Some(s) => s,
            None => String::new(),
        },
        created_at: match created_at {
            Some(s) => s,
            None => String::new(),
        },
        downloads: match downloads {
            Some(d) => d as usize,
            None => 0usize,
        },
        likes: match likes {
            Some(l) => l as usize,
            None => 0usize,
        },
        private: match private {
            Some(p) => p,
            None => false,
        },
        license,
        tags: match tags {
            Some(t) => t,
            None => Vec::new(),
        },
        library_name,
        pipeline_tag,
    }
}

/// Builds the summaries of a whole listing, in order.
pub fn model_infos_from_records(records: Vec<ModelRecord>) -> (r: Vec<ModelInfo>)
    ensures
        r@.len() == records@.len(),
        forall|i: int|
            0 <= i < records@.len() ==> info_matches_record(#[trigger] r@[i], records@[i]),
{
    let ghost all = records@;
    let mut raw = records;
    let mut infos: Vec<ModelInfo> = Vec::new();
    while raw.len() > 0
        invariant
            infos@.len() + raw@.len() == all.len(),
            raw@ == all.subrange(infos@.len() as int, all.len() as int),
            forall|i: int|
                0 <= i < infos@.len() ==> info_matches_record(#[trigger] infos@[i], all[i]),
        decreases raw@.len(),
    {
        let rec = raw.remove(0);
        infos.push(model_info_from_record(rec));
    }
    infos
}

} // verus!
