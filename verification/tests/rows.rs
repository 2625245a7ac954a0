use extraction_store::event::Event;
use extraction_store::json::{JsonValue, Metadata};
use extraction_store::rows::{
    attributes_row_of, chunk_row_of, content_row_of, event_row_of, extractor_row_of,
    index_row_of, repository_row_of,
};
use extraction_store::types::{
    Chunk, DataConnector, DataRepository, ExtractedAttributes, ExtractorBinding, ExtractorConfig,
    ExtractorType, SourceType, Text,
};
use extraction_store::vectordbs::{CreateIndexParams, IndexDistance};

#[test]
fn a_content_row_is_text_without_markers() {
    let metadata = Metadata::from_pairs(vec![("topic".to_string(), JsonValue::text("pipe"))]);
    let text = Text::from_text("docs", "hello", metadata);
    let row = content_row_of("docs", &text);
    assert_eq!(row.id, text.id);
    assert_eq!(row.repository_id, "docs");
    assert_eq!(row.text, "hello");
    assert_eq!(row.metadata.get("topic").unwrap().as_str(), Some("pipe"));
    assert_eq!(row.content_type, "text");
    assert!(row.extractor_bindings_state.state.is_empty());
    assert_eq!(row.extractor_bindings_state.marker("b1"), 0);
}

#[test]
fn an_index_row_is_for_embeddings() {
    let params = CreateIndexParams {
        vectordb_index_name: "docs_vectors".to_string(),
        vector_dim: 384,
        metric: IndexDistance::Cosine,
        unique_params: None,
    };
    let row = index_row_of("docs", "embedder", "vectors", &params);
    assert_eq!(row.name, "vectors");
    assert_eq!(row.vector_index_name.as_deref(), Some("docs_vectors"));
    assert_eq!(row.extractor_name, "embedder");
    assert_eq!(row.index_type, "embedding");
    assert_eq!(row.repository_id, "docs");
}

#[test]
fn a_chunk_row_names_its_index() {
    let chunk = Chunk::new("a fragment".to_string(), "c1".to_string());
    let row = chunk_row_of(&chunk, "vectors");
    assert_eq!(row.chunk_id, chunk.chunk_id);
    assert_eq!(row.content_id, "c1");
    assert_eq!(row.text, "a fragment");
    assert_eq!(row.index_name, "vectors");
}

#[test]
fn an_event_row_keeps_the_time_as_a_signed_number() {
    let metadata = Metadata::from_pairs(vec![("topic".to_string(), JsonValue::text("pipe"))]);
    let event = Event::with_id("e1".to_string(), "started", 10, metadata);
    let row = event_row_of("docs", &event);
    assert_eq!(row.id, "e1");
    assert_eq!(row.repository_id, "docs");
    assert_eq!(row.message, "started");
    assert_eq!(row.unix_time_stamp, 10);
    assert_eq!(row.metadata.get("topic").unwrap().as_str(), Some("pipe"));
    let late = Event::with_id("e2".to_string(), "late", u64::MAX, Metadata::new());
    assert_eq!(event_row_of("docs", &late).unix_time_stamp, -1);
    let edge = Event::with_id("e3".to_string(), "edge", 1u64 << 63, Metadata::new());
    assert_eq!(event_row_of("docs", &edge).unix_time_stamp, i64::MIN);
}

#[test]
fn an_attributes_row_is_created_at_zero() {
    let found = ExtractedAttributes::new("c1", JsonValue::text("one"), "tagger");
    let row = attributes_row_of("docs", "tags", &found);
    assert_eq!(row.id, found.id);
    assert_eq!(row.repository_id, "docs");
    assert_eq!(row.index_name, "tags");
    assert_eq!(row.extractor_id, "tagger");
    assert_eq!(row.data.as_str(), Some("one"));
    assert_eq!(row.content_id, "c1");
    assert_eq!(row.created_at, 0);
}

#[test]
fn an_extractor_row_is_named_by_the_extractor() {
    let config = ExtractorConfig {
        name: "tagger".to_string(),
        description: "tags".to_string(),
        extractor_type: ExtractorType::Attributes { schema: "s".to_string() },
        input_params: JsonValue::Raw("{\"a\":1}".to_string()),
    };
    let row = extractor_row_of(&config);
    assert_eq!(row.id, "tagger");
    assert_eq!(row.description, "tags");
    assert!(matches!(&row.extractor_type, ExtractorType::Attributes { schema } if schema == "s"));
    assert_eq!(row.input_params.as_text(), Some("{\"a\":1}"));
}

#[test]
fn a_repository_row_keeps_one_binding_for_each_identifier() {
    let first = ExtractorBinding::new(
        "docs",
        "embedder".to_string(),
        "one".to_string(),
        vec![],
        JsonValue::empty_object(),
    );
    let second = ExtractorBinding::new(
        "docs",
        "embedder".to_string(),
        "two".to_string(),
        vec![],
        JsonValue::empty_object(),
    );
    let mut again = first.clone();
    again.index_name = "changed".to_string();
    let repository = DataRepository {
        name: "docs".to_string(),
        data_connectors: vec![DataConnector { source: SourceType::Gmail { metadata: None } }],
        extractor_bindings: vec![first.clone(), second.clone(), again],
        metadata: Metadata::from_pairs(vec![("topic".to_string(), JsonValue::text("pipe"))]),
    };
    let row = repository_row_of(&repository);
    assert_eq!(row.name, "docs");
    assert_eq!(row.extractor_bindings.len(), 2);
    assert_eq!(row.extractor_bindings[0].id, first.id);
    assert_eq!(row.extractor_bindings[0].index_name, "changed");
    assert_eq!(row.extractor_bindings[1].id, second.id);
    assert_eq!(row.data_connectors.len(), 1);
    assert_eq!(row.metadata.get("topic").unwrap().as_str(), Some("pipe"));
}
