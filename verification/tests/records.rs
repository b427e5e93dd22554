use modelrun::api::ModelRecord;
use modelrun::api::model_info_from_record;
use modelrun::api::model_infos_from_records;

fn empty_record() -> ModelRecord {
    ModelRecord {
        id: None,
        name: None,
        created_at: None,
        downloads: None,
        likes: None,
        private: None,
        license: None,
        tags: None,
        library_name: None,
        pipeline_tag: None,
    }
}

#[test]
fn absent_fields_take_the_documented_defaults() {
    let info = model_info_from_record(empty_record());
    assert_eq!(info.model_id, "");
    assert_eq!(info.name, "");
    assert_eq!(info.created_at, "");
    assert_eq!(info.downloads, 0);
    assert_eq!(info.likes, 0);
    assert!(!info.private);
    assert!(info.license.is_none());
    assert!(info.tags.is_empty());
    assert!(info.library_name.is_none());
    assert!(info.pipeline_tag.is_none());
}

#[test]
fn present_fields_are_kept() {
    let record = ModelRecord {
        id: Some("org/model".to_string()),
        name: Some("model".to_string()),
        created_at: Some("2024-01-01".to_string()),
        downloads: Some(1234),
        likes: Some(56),
        private: Some(true),
        license: Some("apache-2.0".to_string()),
        tags: Some(vec!["text-generation".to_string(), "en".to_string()]),
        library_name: Some("transformers".to_string()),
        pipeline_tag: Some("text-generation".to_string()),
    };
    let info = model_info_from_record(record);
    assert_eq!(info.model_id, "org/model");
    assert_eq!(info.name, "model");
    assert_eq!(info.created_at, "2024-01-01");
    assert_eq!(info.downloads, 1234);
    assert_eq!(info.likes, 56);
    assert!(info.private);
    assert_eq!(info.license.as_deref(), Some("apache-2.0"));
    assert_eq!(info.tags, vec!["text-generation".to_string(), "en".to_string()]);
    assert_eq!(info.library_name.as_deref(), Some("transformers"));
    assert_eq!(info.pipeline_tag.as_deref(), Some("text-generation"));
}

#[test]
fn listings_are_converted_in_order() {
    let mut first = empty_record();
    first.id = Some("org/a".to_string());
    let mut second = empty_record();
    second.id = Some("org/b".to_string());
    second.downloads = Some(9);
    let infos = model_infos_from_records(vec![first, second]);
    assert_eq!(infos.len(), 2);
    assert_eq!(infos[0].model_id, "org/a");
    assert_eq!(infos[1].model_id, "org/b");
    assert_eq!(infos[1].downloads, 9);
}
