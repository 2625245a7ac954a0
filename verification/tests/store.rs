use extraction_store::error::RepositoryError;
use extraction_store::event::Event;
use extraction_store::json::{JsonValue, Metadata};
use extraction_store::persistence::Repository;
use extraction_store::types::{
    Chunk, DataConnector, DataRepository, ExtractedAttributes, ExtractionEventPayload,
    ExtractorBinding, ExtractorConfig, ExtractorFilter, ExtractorType, SourceType, Text,
};
use extraction_store::vectordbs::{CreateIndexParams, IndexDistance, VectorDbError};

fn topic(value: &str) -> Metadata {
    Metadata::from_pairs(vec![("topic".to_string(), JsonValue::text(value))])
}

fn lang(value: &str) -> Metadata {
    Metadata::from_pairs(vec![("lang".to_string(), JsonValue::text(value))])
}

fn binding(repository: &str, index: &str, filters: Vec<ExtractorFilter>) -> ExtractorBinding {
    ExtractorBinding::new(
        repository,
        "extractor1".to_string(),
        index.to_string(),
        filters,
        JsonValue::empty_object(),
    )
}

fn repository(name: &str, bindings: Vec<ExtractorBinding>) -> DataRepository {
    DataRepository {
        name: name.to_string(),
        data_connectors: vec![],
        extractor_bindings: bindings,
        metadata: Metadata::new(),
    }
}

#[test]
fn test_extractors_for_repository() {
    let extractor1 = ExtractorConfig {
        name: "extractor1".into(),
        extractor_type: ExtractorType::Embedding { dim: 2, distance: IndexDistance::Cosine },
        ..Default::default()
    };
    let extractor_binding1 = ExtractorBinding::new(
        "repository",
        "extractor1".into(),
        "extractor1".into(),
        vec![ExtractorFilter::Eq { field: "topic".to_string(), value: JsonValue::text("pipe") }],
        JsonValue::empty_object(),
    );
    let extractor_binding2 = ExtractorBinding::new(
        "repository1",
        "extractor1".into(),
        "extractor2".into(),
        vec![ExtractorFilter::Neq { field: "topic".to_string(), value: JsonValue::text("pipe") }],
        JsonValue::empty_object(),
    );
    let repo = DataRepository {
        name: "test".to_owned(),
        data_connectors: vec![],
        extractor_bindings: vec![extractor_binding1.clone()],
        metadata: Metadata::new(),
    };

    let mut repository = Repository::new();
    repository.record_extractors(vec![extractor1]).unwrap();
    repository.upsert_repository(repo.clone()).unwrap();

    repository
        .add_content(
            &repo.name,
            vec![
                Text::from_text("test", "hello", topic("pipe")),
                Text::from_text("test", "world", topic("baz")),
            ],
        )
        .unwrap();

    let content_list1 = repository
        .content_with_unapplied_extractor(&repo.name, &extractor_binding1, None)
        .unwrap();
    assert_eq!(1, content_list1.len());

    let content_list2 = repository
        .content_with_unapplied_extractor(&repo.name, &extractor_binding2, None)
        .unwrap();
    assert_eq!(1, content_list2.len());
    assert_ne!(content_list1[0].id, content_list2[0].id);
    assert_eq!(content_list1[0].text, "hello");
    assert_eq!(content_list2[0].text, "world");
}

#[test]
fn ingesting_twice_stores_once_and_announces_once() {
    let mut store = Repository::new();
    let text = Text::from_text("docs", "hello", Metadata::new());
    store.add_content("docs", vec![text.clone()]).unwrap();
    store.add_content("docs", vec![text.clone()]).unwrap();
    let b = binding("docs", "i", vec![]);
    let content = store.content_with_unapplied_extractor("docs", &b, None).unwrap();
    assert_eq!(content.len(), 1);
    assert_eq!(content[0].id, text.id);
    assert_eq!(content[0].repository_id, "docs");
    assert_eq!(content[0].content_type, "text");
    let events = store.unprocessed_extraction_events().unwrap();
    assert_eq!(events.len(), 1);
    assert_eq!(events[0].repository_id, "docs");
    match &events[0].payload {
        ExtractionEventPayload::CreateContent { content_id } => assert_eq!(content_id, &text.id),
        _ => panic!("wrong payload"),
    }
}

#[test]
fn a_text_twice_in_one_batch_is_stored_once() {
    let mut store = Repository::new();
    let text = Text::from_text("docs", "hello", Metadata::new());
    let other = Text::from_text("docs", "world", Metadata::new());
    store
        .add_content_with_ids(
            "docs",
            vec![text.clone(), text.clone(), other.clone()],
            vec!["e1".to_string(), "e2".to_string(), "e3".to_string()],
        )
        .unwrap();
    let events = store.unprocessed_extraction_events().unwrap();
    assert_eq!(events.len(), 2);
    assert_eq!(events[0].id, "e1");
    assert_eq!(events[1].id, "e3");
    assert_eq!(store.content_from_repo(&text.id, "docs").unwrap().content, "hello");
    assert_eq!(store.content_from_repo(&other.id, "docs").unwrap().content, "world");
}

#[test]
fn ingestion_with_a_taken_event_id_changes_nothing() {
    let mut store = Repository::new();
    let first = Text::from_text("docs", "hello", Metadata::new());
    let second = Text::from_text("docs", "world", Metadata::new());
    let third = Text::from_text("docs", "again", Metadata::new());
    store.add_content_with_ids("docs", vec![first], vec!["e1".to_string()]).unwrap();
    let result = store.add_content_with_ids(
        "docs",
        vec![second.clone(), third.clone()],
        vec!["e2".to_string(), "e1".to_string()],
    );
    match result {
        Err(RepositoryError::LogicError(m)) => {
            assert_eq!(m, "extraction event identifier is taken")
        }
        _ => panic!("expected a failure"),
    }
    assert!(matches!(
        store.content_from_repo(&second.id, "docs"),
        Err(RepositoryError::ContentNotFound(_))
    ));
    assert!(matches!(
        store.content_from_repo(&third.id, "docs"),
        Err(RepositoryError::ContentNotFound(_))
    ));
    assert_eq!(store.unprocessed_extraction_events().unwrap().len(), 1);
}

#[test]
fn ingestion_needs_one_event_id_for_each_text() {
    let mut store = Repository::new();
    let text = Text::from_text("docs", "hello", Metadata::new());
    let result = store.add_content_with_ids("docs", vec![text.clone()], vec![]);
    match result {
        Err(RepositoryError::LogicError(m)) => {
            assert_eq!(m, "one event identifier is needed for each event")
        }
        _ => panic!("expected a failure"),
    }
    assert!(store.content_from_repo(&text.id, "docs").is_err());
    assert!(store.unprocessed_extraction_events().unwrap().is_empty());
}

#[test]
fn generated_event_ids_have_twenty_one_safe_characters() {
    let mut store = Repository::new();
    store
        .add_content(
            "docs",
            vec![
                Text::from_text("docs", "a", Metadata::new()),
                Text::from_text("docs", "b", Metadata::new()),
            ],
        )
        .unwrap();
    let events = store.unprocessed_extraction_events().unwrap();
    assert_eq!(events.len(), 2);
    assert_ne!(events[0].id, events[1].id);
    for event in &events {
        assert_eq!(event.id.chars().count(), 21);
        assert!(event.id.chars().all(|c| c.is_ascii_alphanumeric() || c == '_' || c == '-'));
    }
}

#[test]
fn outbox_delivers_until_marked() {
    let mut store = Repository::new();
    let text = Text::from_text("docs", "hello", Metadata::new());
    store.add_content_with_ids("docs", vec![text], vec!["e1".to_string()]).unwrap();
    let waiting = store.unprocessed_extraction_events().unwrap();
    assert_eq!(waiting.len(), 1);
    assert_eq!(waiting[0].id, "e1");
    assert_eq!(store.unprocessed_extraction_events().unwrap().len(), 1);
    store.mark_extraction_event_as_processed("e1").unwrap();
    assert!(store.unprocessed_extraction_events().unwrap().is_empty());
    store.mark_extraction_event_as_processed("e1").unwrap();
    store.mark_extraction_event_as_processed_at("e1", 7).unwrap();
    assert!(store.unprocessed_extraction_events().unwrap().is_empty());
}

#[test]
fn marking_one_event_leaves_the_others_waiting() {
    let mut store = Repository::new();
    store
        .add_content_with_ids(
            "docs",
            vec![
                Text::from_text("docs", "a", Metadata::new()),
                Text::from_text("docs", "b", Metadata::new()),
                Text::from_text("docs", "c", Metadata::new()),
            ],
            vec!["e1".to_string(), "e2".to_string(), "e3".to_string()],
        )
        .unwrap();
    store.mark_extraction_event_as_processed_at("e2", 100).unwrap();
    let waiting = store.unprocessed_extraction_events().unwrap();
    assert_eq!(waiting.len(), 2);
    assert_eq!(waiting[0].id, "e1");
    assert_eq!(waiting[1].id, "e3");
}

#[test]
fn marking_an_unknown_event_fails() {
    let mut store = Repository::new();
    match store.mark_extraction_event_as_processed("nothing") {
        Err(RepositoryError::LogicError(m)) => assert_eq!(m, "extraction event not found"),
        _ => panic!("expected a failure"),
    }
    match store.mark_extraction_event_as_processed_at("nothing", 1) {
        Err(RepositoryError::LogicError(m)) => assert_eq!(m, "extraction event not found"),
        _ => panic!("expected a failure"),
    }
}

#[test]
fn upsert_announces_each_binding_each_time() {
    let mut store = Repository::new();
    let b1 = binding("docs", "one", vec![]);
    let b2 = binding("docs", "two", vec![]);
    let repo = repository("docs", vec![b1.clone(), b2.clone()]);
    store
        .upsert_repository_with_ids(repo.clone(), vec!["e1".to_string(), "e2".to_string()])
        .unwrap();
    let events = store.unprocessed_extraction_events().unwrap();
    assert_eq!(events.len(), 2);
    match &events[0].payload {
        ExtractionEventPayload::ExtractorBindingAdded { repository, id } => {
            assert_eq!(repository, "docs");
            assert_eq!(id, &b1.id);
        }
        _ => panic!("wrong payload"),
    }
    match &events[1].payload {
        ExtractionEventPayload::ExtractorBindingAdded { repository, id } => {
            assert_eq!(repository, "docs");
            assert_eq!(id, &b2.id);
        }
        _ => panic!("wrong payload"),
    }
    store.upsert_repository(repo).unwrap();
    assert_eq!(store.unprocessed_extraction_events().unwrap().len(), 4);
    assert_eq!(store.repositories().unwrap().len(), 1);
}

#[test]
fn upsert_replaces_bindings_and_metadata_and_keeps_connectors() {
    let mut store = Repository::new();
    let b1 = binding("docs", "one", vec![]);
    let b2 = binding("docs", "two", vec![]);
    let mut first = repository("docs", vec![b1.clone()]);
    first.data_connectors =
        vec![DataConnector { source: SourceType::Gmail { metadata: Some("m".to_string()) } }];
    first.metadata = topic("old");
    store.upsert_repository(first).unwrap();
    let mut second = repository("docs", vec![b2.clone()]);
    second.metadata = topic("new");
    store.upsert_repository(second).unwrap();
    let stored = store.repository_by_name("docs").unwrap();
    assert_eq!(stored.name, "docs");
    assert_eq!(stored.extractor_bindings.len(), 1);
    assert_eq!(stored.extractor_bindings[0].id, b2.id);
    assert_eq!(stored.data_connectors.len(), 1);
    assert!(matches!(
        &stored.data_connectors[0].source,
        SourceType::Gmail { metadata: Some(m) } if m == "m"
    ));
    assert_eq!(stored.metadata.get("topic").unwrap().as_str(), Some("new"));
}

#[test]
fn upsert_keeps_one_binding_for_each_identifier() {
    let mut store = Repository::new();
    let b1 = binding("docs", "one", vec![]);
    let mut again = binding("docs", "one", vec![]);
    again.index_name = "changed".to_string();
    let b2 = binding("docs", "two", vec![]);
    store.upsert_repository(repository("docs", vec![b1.clone(), b2.clone(), again])).unwrap();
    let stored = store.repository_by_name("docs").unwrap();
    assert_eq!(stored.extractor_bindings.len(), 2);
    assert_eq!(stored.extractor_bindings[0].id, b1.id);
    assert_eq!(stored.extractor_bindings[0].index_name, "changed");
    assert_eq!(stored.extractor_bindings[1].id, b2.id);
    assert_eq!(store.unprocessed_extraction_events().unwrap().len(), 3);
}

#[test]
fn upsert_with_a_taken_event_id_changes_nothing() {
    let mut store = Repository::new();
    store
        .add_content_with_ids(
            "docs",
            vec![Text::from_text("docs", "a", Metadata::new())],
            vec!["e1".to_string()],
        )
        .unwrap();
    let repo = repository("docs", vec![binding("docs", "one", vec![])]);
    let result = store.upsert_repository_with_ids(repo.clone(), vec!["e1".to_string()]);
    assert!(matches!(result, Err(RepositoryError::LogicError(_))));
    assert!(matches!(
        store.repository_by_name("docs"),
        Err(RepositoryError::RepositoryNotFound(_))
    ));
    assert_eq!(store.unprocessed_extraction_events().unwrap().len(), 1);
    let result = store.upsert_repository_with_ids(repo, vec![]);
    assert!(matches!(result, Err(RepositoryError::LogicError(_))));
}

#[test]
fn completion_is_monotonic() {
    let mut store = Repository::new();
    let text = Text::from_text("docs", "hello", Metadata::new());
    let b1 = binding("docs", "one", vec![]);
    let b2 = binding("docs", "two", vec![]);
    store.add_content("docs", vec![text.clone()]).unwrap();
    assert_eq!(store.content_with_unapplied_extractor("docs", &b1, None).unwrap().len(), 1);
    store.mark_content_as_processed(&text.id, &b1.id).unwrap();
    assert!(store.content_with_unapplied_extractor("docs", &b1, None).unwrap().is_empty());
    assert_eq!(store.content_with_unapplied_extractor("docs", &b2, None).unwrap().len(), 1);
    store.mark_content_as_processed(&text.id, &b2.id).unwrap();
    store.mark_content_as_processed(&text.id, &b1.id).unwrap();
    store.add_content("docs", vec![text.clone()]).unwrap();
    assert!(store.content_with_unapplied_extractor("docs", &b1, None).unwrap().is_empty());
    assert!(store.content_with_unapplied_extractor("docs", &b2, None).unwrap().is_empty());
    assert!(store
        .content_with_unapplied_extractor("docs", &b1, Some(&text.id))
        .unwrap()
        .is_empty());
}

#[test]
fn marking_unknown_content_is_no_failure() {
    let mut store = Repository::new();
    store.mark_content_as_processed("nothing", "b").unwrap();
    let b = binding("docs", "one", vec![]);
    assert!(store.content_with_unapplied_extractor("docs", &b, None).unwrap().is_empty());
}

#[test]
fn filters_select_by_metadata() {
    let mut store = Repository::new();
    let pipe = Text::from_text("docs", "hello", topic("pipe"));
    let baz = Text::from_text("docs", "world", topic("baz"));
    store.add_content("docs", vec![pipe.clone(), baz.clone()]).unwrap();
    let eq = binding(
        "docs",
        "eq",
        vec![ExtractorFilter::Eq { field: "topic".to_string(), value: JsonValue::text("pipe") }],
    );
    let neq = binding(
        "docs",
        "neq",
        vec![ExtractorFilter::Neq { field: "topic".to_string(), value: JsonValue::text("pipe") }],
    );
    let found = store.content_with_unapplied_extractor("docs", &eq, None).unwrap();
    assert_eq!(found.len(), 1);
    assert_eq!(found[0].id, pipe.id);
    let found = store.content_with_unapplied_extractor("docs", &neq, None).unwrap();
    assert_eq!(found.len(), 1);
    assert_eq!(found[0].id, baz.id);
}

#[test]
fn scenario_docs_with_one_binding() {
    let mut store = Repository::new();
    let b1 = binding(
        "docs",
        "b1",
        vec![ExtractorFilter::Eq { field: "lang".to_string(), value: JsonValue::text("en") }],
    );
    store.upsert_repository(repository("docs", vec![b1.clone()])).unwrap();
    let en = Text::from_text("docs", "hello", lang("en"));
    let fr = Text::from_text("docs", "bonjour", lang("fr"));
    store.add_content("docs", vec![en.clone(), fr.clone()]).unwrap();
    let found = store.content_with_unapplied_extractor("docs", &b1, None).unwrap();
    assert_eq!(found.len(), 1);
    assert_eq!(found[0].id, en.id);
    assert_eq!(found[0].text, "hello");
    store.mark_content_as_processed(&en.id, &b1.id).unwrap();
    assert!(store.content_with_unapplied_extractor("docs", &b1, None).unwrap().is_empty());
}

#[test]
fn filters_combine_and_a_missing_field_passes_none() {
    let mut store = Repository::new();
    let mut both = topic("pipe");
    both.insert("lang".to_string(), JsonValue::text("en"));
    let full = Text::from_text("docs", "full", both);
    let half = Text::from_text("docs", "half", topic("pipe"));
    let none = Text::from_text("docs", "none", Metadata::new());
    let null = Text::from_text(
        "docs",
        "null",
        Metadata::from_pairs(vec![("topic".to_string(), JsonValue::Null)]),
    );
    let raw = Text::from_text(
        "docs",
        "raw",
        Metadata::from_pairs(vec![("topic".to_string(), JsonValue::Raw("12".to_string()))]),
    );
    store
        .add_content(
            "docs",
            vec![full.clone(), half.clone(), none.clone(), null.clone(), raw.clone()],
        )
        .unwrap();
    let eq_both = binding(
        "docs",
        "both",
        vec![
            ExtractorFilter::Eq { field: "topic".to_string(), value: JsonValue::text("pipe") },
            ExtractorFilter::Eq { field: "lang".to_string(), value: JsonValue::text("en") },
        ],
    );
    let found = store.content_with_unapplied_extractor("docs", &eq_both, None).unwrap();
    assert_eq!(found.len(), 1);
    assert_eq!(found[0].id, full.id);
    let neq = binding(
        "docs",
        "neq",
        vec![ExtractorFilter::Neq { field: "topic".to_string(), value: JsonValue::text("x") }],
    );
    let found = store.content_with_unapplied_extractor("docs", &neq, None).unwrap();
    assert_eq!(found.len(), 3);
    assert_eq!(found[0].id, full.id);
    assert_eq!(found[1].id, half.id);
    assert_eq!(found[2].id, raw.id);
    let eq_raw = binding(
        "docs",
        "raw",
        vec![ExtractorFilter::Eq { field: "topic".to_string(), value: JsonValue::text("12") }],
    );
    let found = store.content_with_unapplied_extractor("docs", &eq_raw, None).unwrap();
    assert_eq!(found.len(), 1);
    assert_eq!(found[0].id, raw.id);
}

#[test]
fn unapplied_content_is_of_the_repository_and_of_the_item_asked_for() {
    let mut store = Repository::new();
    let a = Text::from_text("docs", "a", Metadata::new());
    let b = Text::from_text("docs", "b", Metadata::new());
    let c = Text::from_text("other", "c", Metadata::new());
    store.add_content("docs", vec![a.clone(), b.clone()]).unwrap();
    store.add_content("other", vec![c.clone()]).unwrap();
    let all = binding("docs", "one", vec![]);
    let found = store.content_with_unapplied_extractor("docs", &all, None).unwrap();
    assert_eq!(found.len(), 2);
    assert_eq!(found[0].id, a.id);
    assert_eq!(found[1].id, b.id);
    let found = store.content_with_unapplied_extractor("docs", &all, Some(&b.id)).unwrap();
    assert_eq!(found.len(), 1);
    assert_eq!(found[0].id, b.id);
    let found = store.content_with_unapplied_extractor("docs", &all, Some(&c.id)).unwrap();
    assert!(found.is_empty());
    let found = store.content_with_unapplied_extractor("other", &all, None).unwrap();
    assert_eq!(found.len(), 1);
    assert_eq!(found[0].id, c.id);
}

#[test]
fn a_filter_that_compares_with_no_string_is_refused() {
    let mut store = Repository::new();
    store.add_content("docs", vec![Text::from_text("docs", "a", topic("pipe"))]).unwrap();
    for value in [JsonValue::Null, JsonValue::Raw("12".to_string())] {
        let b = binding(
            "docs",
            "one",
            vec![
                ExtractorFilter::Eq { field: "topic".to_string(), value: JsonValue::text("pipe") },
                ExtractorFilter::Neq { field: "topic".to_string(), value },
            ],
        );
        match store.content_with_unapplied_extractor("docs", &b, None) {
            Err(RepositoryError::LogicError(m)) => assert_eq!(m, "filter value is not a string"),
            _ => panic!("expected a failure"),
        }
    }
}

#[test]
fn index_is_described_when_the_backend_created_it() {
    let mut store = Repository::new();
    let params = CreateIndexParams {
        vectordb_index_name: "docs_vectors".to_string(),
        vector_dim: 384,
        metric: IndexDistance::Cosine,
        unique_params: None,
    };
    store.create_vector_index("docs", "embedder", "vectors", params, Ok(())).unwrap();
    let index = store.get_index("vectors", "docs").unwrap();
    assert_eq!(index.name, "vectors");
    assert_eq!(index.vector_index_name.as_deref(), Some("docs_vectors"));
    assert_eq!(index.extractor_name, "embedder");
    assert_eq!(index.index_type, "embedding");
    assert_eq!(index.repository_id, "docs");
    let again = CreateIndexParams {
        vectordb_index_name: "changed".to_string(),
        vector_dim: 2,
        metric: IndexDistance::Dot,
        unique_params: Some(vec!["a".to_string()]),
    };
    store.create_vector_index("docs", "other", "vectors", again, Ok(())).unwrap();
    let index = store.get_index("vectors", "docs").unwrap();
    assert_eq!(index.vector_index_name.as_deref(), Some("docs_vectors"));
    assert_eq!(index.extractor_name, "embedder");
}

#[test]
fn index_is_not_described_when_the_backend_failed() {
    let mut store = Repository::new();
    let params = CreateIndexParams {
        vectordb_index_name: "docs_vectors".to_string(),
        vector_dim: 384,
        metric: IndexDistance::Euclidean,
        unique_params: None,
    };
    let result = store.create_vector_index(
        "docs",
        "embedder",
        "vectors",
        params,
        Err(VectorDbError::IndexCreationError("down".to_string())),
    );
    match result {
        Err(RepositoryError::VectorDb(VectorDbError::IndexCreationError(m))) => {
            assert_eq!(m, "down")
        }
        _ => panic!("expected the backend's failure"),
    }
    match store.get_index("vectors", "docs") {
        Err(RepositoryError::IndexNotFound(name)) => assert_eq!(name, "vectors"),
        _ => panic!("expected a failure"),
    }
}

#[test]
fn index_of_another_repository_is_not_found() {
    let mut store = Repository::new();
    let params = CreateIndexParams {
        vectordb_index_name: "v".to_string(),
        vector_dim: 2,
        metric: IndexDistance::Cosine,
        unique_params: None,
    };
    store.create_vector_index("docs", "embedder", "vectors", params, Ok(())).unwrap();
    assert!(matches!(
        store.get_index("vectors", "other"),
        Err(RepositoryError::IndexNotFound(_))
    ));
}

#[test]
fn content_is_found_in_its_repository_only() {
    let mut store = Repository::new();
    let text = Text::from_text("docs", "hello", topic("pipe"));
    store.add_content("docs", vec![text.clone()]).unwrap();
    let found = store.content_from_repo(&text.id, "docs").unwrap();
    assert_eq!(found.id, text.id);
    assert_eq!(found.content, "hello");
    assert_eq!(found.metadata.get("topic").unwrap().as_str(), Some("pipe"));
    match store.content_from_repo(&text.id, "other") {
        Err(RepositoryError::ContentNotFound(id)) => assert_eq!(id, text.id),
        _ => panic!("expected a failure"),
    }
    match store.content_from_repo("nothing", "docs") {
        Err(RepositoryError::ContentNotFound(id)) => assert_eq!(id, "nothing"),
        _ => panic!("expected a failure"),
    }
}

#[test]
fn chunks_are_stored_once_and_found_with_metadata() {
    let mut store = Repository::new();
    let text = Text::from_text("docs", "hello world", topic("pipe"));
    store.add_content("docs", vec![text.clone()]).unwrap();
    let chunk = Chunk::new("hello".to_string(), text.id.clone());
    let orphan = Chunk::new("lost".to_string(), "nothing".to_string());
    store.create_chunks(vec![chunk.clone(), orphan.clone(), chunk.clone()], "vectors").unwrap();
    store.create_chunks(vec![chunk.clone()], "other").unwrap();
    let found = store.chunk_with_id(&chunk.chunk_id).unwrap();
    assert_eq!(found.chunk_id, chunk.chunk_id);
    assert_eq!(found.content_id, text.id);
    assert_eq!(found.text, "hello");
    assert_eq!(found.metadata.get("topic").unwrap().as_str(), Some("pipe"));
    match store.chunk_with_id(&orphan.chunk_id) {
        Err(RepositoryError::ContentNotFound(id)) => assert_eq!(id, "nothing"),
        _ => panic!("expected a failure"),
    }
    match store.chunk_with_id("nothing") {
        Err(RepositoryError::ChunkNotFound(id)) => assert_eq!(id, "nothing"),
        _ => panic!("expected a failure"),
    }
}

#[test]
fn repositories_are_listed_and_found_by_name() {
    let mut store = Repository::new();
    store.upsert_repository(repository("docs", vec![])).unwrap();
    store.upsert_repository(repository("mail", vec![])).unwrap();
    store.upsert_repository(repository("docs", vec![])).unwrap();
    let all = store.repositories().unwrap();
    assert_eq!(all.len(), 2);
    assert_eq!(all[0].name, "docs");
    assert_eq!(all[1].name, "mail");
    assert_eq!(store.repository_by_name("mail").unwrap().name, "mail");
    match store.repository_by_name("nothing") {
        Err(RepositoryError::RepositoryNotFound(name)) => assert_eq!(name, "nothing"),
        _ => panic!("expected a failure"),
    }
}

#[test]
fn extractors_are_recorded_and_updated() {
    let mut store = Repository::new();
    let first = ExtractorConfig {
        name: "tagger".to_string(),
        description: "first".to_string(),
        extractor_type: ExtractorType::Attributes { schema: "s".to_string() },
        input_params: JsonValue::empty_object(),
    };
    let second = ExtractorConfig {
        name: "tagger".to_string(),
        description: "second".to_string(),
        extractor_type: ExtractorType::Embedding { dim: 2, distance: IndexDistance::Dot },
        input_params: JsonValue::Raw("{\"a\":1}".to_string()),
    };
    store.record_extractors(vec![first, ExtractorConfig::default()]).unwrap();
    store.record_extractors(vec![second]).unwrap();
    let all = store.list_extractors().unwrap();
    assert_eq!(all.len(), 2);
    assert_eq!(all[0].name, "tagger");
    assert_eq!(all[0].description, "second");
    assert!(matches!(&all[0].extractor_type, ExtractorType::Attributes { schema } if schema == "s"));
    assert_eq!(all[0].input_params.as_text(), Some("{\"a\":1}"));
    assert_eq!(all[1].name, "default-embedder");
    assert_eq!(store.extractor_by_name("tagger").unwrap().description, "second");
    assert_eq!(store.get_extractor("default-embedder").unwrap().name, "default-embedder");
    match store.extractor_by_name("nothing") {
        Err(RepositoryError::ExtractorNotFound(name)) => assert_eq!(name, "nothing"),
        _ => panic!("expected a failure"),
    }
    match store.get_extractor("nothing") {
        Err(RepositoryError::ExtractorNotFound(name)) => assert_eq!(name, "nothing"),
        _ => panic!("expected a failure"),
    }
}

#[test]
fn attributes_are_stored_once_for_each_content_and_extractor() {
    let mut store = Repository::new();
    let first = ExtractedAttributes::new("c1", JsonValue::text("one"), "tagger");
    let again = ExtractedAttributes::new("c1", JsonValue::text("two"), "tagger");
    let other = ExtractedAttributes::new("c2", JsonValue::text("three"), "tagger");
    store.add_attributes("docs", "tags", first).unwrap();
    store.add_attributes("docs", "tags", other).unwrap();
    store.add_attributes("elsewhere", "changed", again).unwrap();
    let all = store.get_extracted_attributes("docs", "tags", None).unwrap();
    assert_eq!(all.len(), 2);
    assert_eq!(all[0].content_id, "c1");
    assert_eq!(all[0].attributes.as_str(), Some("two"));
    assert_eq!(all[0].extractor_name, "tagger");
    assert_eq!(all[1].content_id, "c2");
    let one = store.get_extracted_attributes("docs", "tags", Some(&"c2".to_string())).unwrap();
    assert_eq!(one.len(), 1);
    assert_eq!(one[0].attributes.as_str(), Some("three"));
    assert!(store.get_extracted_attributes("docs", "other", None).unwrap().is_empty());
    assert!(store.get_extracted_attributes("elsewhere", "changed", None).unwrap().is_empty());
}

#[test]
fn events_are_logged_once_for_each_identifier() {
    let mut store = Repository::new();
    let first = Event::with_id("e1".to_string(), "started", 10, topic("pipe"));
    let again = Event::with_id("e1".to_string(), "changed", 11, Metadata::new());
    let late = Event::with_id("e2".to_string(), "late", u64::MAX, Metadata::new());
    let other = Event::with_id("e3".to_string(), "other", 12, Metadata::new());
    store.add_events("docs", vec![first, again, late]).unwrap();
    store.add_events("mail", vec![other]).unwrap();
    store.add_events("docs", vec![]).unwrap();
    let logged = store.list_events("docs").unwrap();
    assert_eq!(logged.len(), 2);
    assert_eq!(logged[0].id, "e1");
    assert_eq!(logged[0].message, "started");
    assert_eq!(logged[0].unix_timestamp, 10);
    assert_eq!(logged[0].metadata.get("topic").unwrap().as_str(), Some("pipe"));
    assert_eq!(logged[1].id, "e2");
    assert_eq!(logged[1].unix_timestamp, u64::MAX);
    assert_eq!(store.list_events("mail").unwrap().len(), 1);
    assert!(store.list_events("nothing").unwrap().is_empty());
}

#[test]
fn new_events_get_an_identifier_and_a_time() {
    let event = Event::new("started", Some(42), topic("pipe"));
    assert_eq!(event.message, "started");
    assert_eq!(event.unix_timestamp, 42);
    assert_eq!(event.id.chars().count(), 21);
    assert!(event.id.chars().all(|c| c.is_ascii_alphanumeric() || c == '_' || c == '-'));
    let now = Event::new("now", None, Metadata::new());
    assert!(now.unix_timestamp > 1_600_000_000);
    assert_ne!(now.id, event.id);
}

#[test]
fn binding_is_found_by_its_identifier() {
    let mut store = Repository::new();
    let b1 = binding("docs", "one", vec![]);
    let b2 = binding(
        "mail",
        "two",
        vec![ExtractorFilter::Eq { field: "topic".to_string(), value: JsonValue::text("pipe") }],
    );
    store.upsert_repository(repository("docs", vec![b1.clone()])).unwrap();
    store.upsert_repository(repository("mail", vec![b2.clone(), b1.clone()])).unwrap();
    let found = store.binding_by_id("mail", &b2.id).unwrap();
    assert_eq!(found.id, b2.id);
    assert_eq!(found.index_name, "two");
    assert_eq!(found.filters.len(), 1);
    let found = store.binding_by_id("anything", &b1.id).unwrap();
    assert_eq!(found.id, b1.id);
    match store.binding_by_id("docs", "nothing") {
        Err(RepositoryError::RepositoryNotFound(name)) => assert_eq!(name, "docs"),
        _ => panic!("expected a failure"),
    }
}

#[test]
fn empty_lists_change_nothing() {
    let mut store = Repository::new();
    store.add_content("docs", vec![]).unwrap();
    store.add_content_with_ids("docs", vec![], vec![]).unwrap();
    store.upsert_repository(repository("docs", vec![])).unwrap();
    store.record_extractors(vec![]).unwrap();
    store.create_chunks(vec![], "vectors").unwrap();
    store.add_events("docs", vec![]).unwrap();
    store.assign_work(vec![]).unwrap();
    assert!(store.unprocessed_extraction_events().unwrap().is_empty());
    assert!(store.list_extractors().unwrap().is_empty());
    assert!(store.list_events("docs").unwrap().is_empty());
    assert!(store.unallocated_work().unwrap().is_empty());
    assert_eq!(store.repositories().unwrap().len(), 1);
    let all = binding("docs", "one", vec![]);
    assert!(store.content_with_unapplied_extractor("docs", &all, None).unwrap().is_empty());
}

#[test]
fn a_new_store_holds_nothing() {
    let store = Repository::new();
    assert!(store.unprocessed_extraction_events().unwrap().is_empty());
    assert!(store.repositories().unwrap().is_empty());
    assert!(store.list_extractors().unwrap().is_empty());
    assert!(store.unallocated_work().unwrap().is_empty());
    assert!(store.work_for_worker("w1").unwrap().is_empty());
    assert!(store.list_events("docs").unwrap().is_empty());
    assert!(store.get_extracted_attributes("docs", "tags", None).unwrap().is_empty());
    assert!(matches!(store.get_index("i", "docs"), Err(RepositoryError::IndexNotFound(_))));
    assert!(matches!(store.chunk_with_id("k"), Err(RepositoryError::ChunkNotFound(_))));
    assert!(matches!(
        store.binding_by_id("docs", "b"),
        Err(RepositoryError::RepositoryNotFound(_))
    ));
}
