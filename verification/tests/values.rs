use extraction_store::completion::ExtractorBindingsState;
use extraction_store::error::{DatabaseError, RepositoryError};
use extraction_store::event::clock_seconds;
use extraction_store::json::{same_text, JsonValue, Metadata};
use extraction_store::persistence::announce;
use extraction_store::query::{
    binding_statement, mark_content_statement, to_decimal, to_placeholder,
    unapplied_content_statement,
};
use extraction_store::types::{
    Content, ContentType, ExtractionEventPayload, ExtractorBinding, ExtractorConfig,
    ExtractorFilter, ExtractorType,
};
use extraction_store::vectordbs::{IndexDistance, VectorDbError};

#[test]
fn json_values_are_read_as_strings_and_as_text() {
    assert_eq!(JsonValue::text("pipe").as_str(), Some("pipe"));
    assert_eq!(JsonValue::text("pipe").as_text(), Some("pipe"));
    assert_eq!(JsonValue::Null.as_str(), None);
    assert_eq!(JsonValue::Null.as_text(), None);
    assert_eq!(JsonValue::Raw("12".to_string()).as_str(), None);
    assert_eq!(JsonValue::Raw("12".to_string()).as_text(), Some("12"));
    assert_eq!(JsonValue::empty_object().as_text(), Some("{}"));
    assert_eq!(JsonValue::text("pipe").clone().as_str(), Some("pipe"));
}

#[test]
fn strings_are_compared_by_their_text() {
    assert!(same_text("abc", "abc"));
    assert!(same_text("", ""));
    assert!(!same_text("abc", "abd"));
    assert!(!same_text("abc", "ab"));
}

#[test]
fn metadata_keeps_the_last_value_of_a_key() {
    let mut metadata = Metadata::from_pairs(vec![
        ("topic".to_string(), JsonValue::text("pipe")),
        ("lang".to_string(), JsonValue::text("en")),
        ("topic".to_string(), JsonValue::text("baz")),
    ]);
    assert_eq!(metadata.get("topic").unwrap().as_str(), Some("baz"));
    assert_eq!(metadata.get("lang").unwrap().as_str(), Some("en"));
    assert!(metadata.get("nothing").is_none());
    metadata.insert("lang".to_string(), JsonValue::Null);
    assert_eq!(metadata.get("lang").unwrap().as_text(), None);
    assert!(Metadata::new().get("topic").is_none());
    assert_eq!(metadata.clone().get("topic").unwrap().as_str(), Some("baz"));
}

#[test]
fn markers_start_at_zero_and_are_set_to_one() {
    let mut markers = ExtractorBindingsState::default();
    assert_eq!(markers.marker("b1"), 0);
    markers.mark("b1");
    assert_eq!(markers.marker("b1"), 1);
    assert_eq!(markers.marker("b2"), 0);
    markers.mark("b2");
    markers.mark("b1");
    assert_eq!(markers.marker("b1"), 1);
    assert_eq!(markers.marker("b2"), 1);
    let mut high = ExtractorBindingsState { state: vec![("b1".to_string(), 5)] };
    assert_eq!(high.marker("b1"), 5);
    high.mark("b1");
    assert_eq!(high.marker("b1"), 1);
    assert_eq!(high.clone().marker("b1"), 1);
}

#[test]
fn content_types_have_names() {
    assert_eq!(ContentType::Text.to_string(), "text");
    assert_eq!(ContentType::from_str("text"), Some(ContentType::Text));
    assert_eq!(ContentType::from_str("Text"), None);
    assert_eq!(ContentType::default(), ContentType::Text);
}

#[test]
fn the_default_extractor_embeds_text() {
    let config = ExtractorConfig::default();
    assert_eq!(config.name, "default-embedder");
    assert_eq!(config.description, "Default Text Embedding Extractor");
    assert!(matches!(
        config.extractor_type,
        ExtractorType::Embedding { dim: 384, distance: IndexDistance::Cosine }
    ));
    assert_eq!(config.input_params.as_text(), Some("{}"));
}

#[test]
fn content_holds_what_it_is_given() {
    let metadata = Metadata::from_pairs(vec![("topic".to_string(), JsonValue::text("pipe"))]);
    let item = Content::new("c1".to_string(), 7u64, metadata);
    assert_eq!(item.id, "c1");
    assert_eq!(item.content, 7);
    assert_eq!(item.metadata.get("topic").unwrap().as_str(), Some("pipe"));
}

#[test]
fn failures_have_messages() {
    let cases = vec![
        (RepositoryError::RepositoryNotFound("docs".to_string()), "repository `docs` not found"),
        (RepositoryError::ExtractorNotFound("x".to_string()), "extractor`x` not found"),
        (RepositoryError::IndexNotFound("i".to_string()), "index `i` not found"),
        (RepositoryError::ContentNotFound("c".to_string()), "content`c` not found"),
        (RepositoryError::ChunkNotFound("k".to_string()), "chunk `k` not found"),
        (RepositoryError::IndexAlreadyExists("i".to_string()), "index `i` already exists"),
        (
            RepositoryError::UniqueParamsSerializationError("bad".to_string()),
            "unable to serialize unique params `bad`",
        ),
        (RepositoryError::SessionNotFound("s".to_string()), "session `s` not found"),
        (RepositoryError::LogicError("oops".to_string()), "internal application error `oops`"),
        (
            RepositoryError::DatabaseError(DatabaseError::RecordNotInserted),
            "None of the records are inserted",
        ),
        (RepositoryError::DatabaseError(DatabaseError::Failed("lost".to_string())), "lost"),
        (RepositoryError::VectorDb(VectorDbError::IndexCreationError("a".to_string())), "a"),
        (RepositoryError::VectorDb(VectorDbError::IndexWriteError("b".to_string())), "b"),
        (RepositoryError::VectorDb(VectorDbError::IndexReadError("c".to_string())), "c"),
    ];
    for (error, message) in cases {
        assert_eq!(error.message(), message);
    }
}

#[test]
fn an_insert_that_inserted_nothing_is_no_failure() {
    assert!(RepositoryError::settle_insert(Ok(())).is_ok());
    assert!(RepositoryError::settle_insert(Err(DatabaseError::RecordNotInserted)).is_ok());
    match RepositoryError::settle_insert(Err(DatabaseError::Failed("lost".to_string()))) {
        Err(RepositoryError::DatabaseError(DatabaseError::Failed(m))) => assert_eq!(m, "lost"),
        _ => panic!("expected a failure"),
    }
}

#[test]
fn an_insert_says_whether_it_took() {
    assert_eq!(RepositoryError::insert_took(Ok(())).unwrap(), true);
    assert_eq!(RepositoryError::insert_took(Err(DatabaseError::RecordNotInserted)).unwrap(), false);
    match RepositoryError::insert_took(Err(DatabaseError::Failed("lost".to_string()))) {
        Err(RepositoryError::DatabaseError(DatabaseError::Failed(m))) => assert_eq!(m, "lost"),
        _ => panic!("expected a failure"),
    }
}

#[test]
fn an_outbox_row_is_marked_once() {
    let row = announce(
        "e1".to_string(),
        "docs",
        ExtractionEventPayload::CreateContent { content_id: "c1".to_string() },
    );
    assert_eq!(row.id, "e1");
    assert_eq!(row.payload.id, "e1");
    assert_eq!(row.payload.repository_id, "docs");
    assert_eq!(row.processed_at, None);
    assert!(row.allocation_info.is_none());
    let marked = row.marked_at(7).unwrap();
    assert_eq!(marked.processed_at, Some(7));
    assert_eq!(marked.id, "e1");
    assert_eq!(marked.payload.repository_id, "docs");
    assert!(marked.marked_at(9).is_none());
}

#[test]
fn a_clock_before_the_epoch_reads_zero() {
    assert_eq!(clock_seconds(Some(12)), 12);
    assert_eq!(clock_seconds(None), 0);
}

#[test]
fn numbers_are_written_in_decimal() {
    assert_eq!(to_decimal(0), "0");
    assert_eq!(to_decimal(7), "7");
    assert_eq!(to_decimal(10), "10");
    assert_eq!(to_decimal(1234567890), "1234567890");
    assert_eq!(to_decimal(u128::MAX), "340282366920938463463374607431768211455");
    assert_eq!(to_placeholder(3), "$3");
    assert_eq!(to_placeholder(12), "$12");
}

fn filtered_binding(filters: Vec<ExtractorFilter>) -> ExtractorBinding {
    ExtractorBinding {
        id: "b1".to_string(),
        extractor_name: "e".to_string(),
        index_name: "i".to_string(),
        filters,
        input_params: JsonValue::empty_object(),
    }
}

#[test]
fn statement_without_filters() {
    let statement = unapplied_content_statement("docs", &filtered_binding(vec![]), None).unwrap();
    assert_eq!(
        statement.sql,
        "select * from content where repository_id=$1 and COALESCE(cast(extractor_bindings_state->'state'->>$2 as int),0) < 1"
    );
    assert_eq!(statement.values, vec!["docs", "b1"]);
}

#[test]
fn statement_for_one_item() {
    let statement =
        unapplied_content_statement("docs", &filtered_binding(vec![]), Some("c1")).unwrap();
    assert_eq!(
        statement.sql,
        "select * from content where repository_id=$1 and COALESCE(cast(extractor_bindings_state->'state'->>$2 as int),0) < 1 and id = $3"
    );
    assert_eq!(statement.values, vec!["docs", "b1", "c1"]);
}

#[test]
fn statement_with_filters() {
    let binding = filtered_binding(vec![
        ExtractorFilter::Eq { field: "topic".to_string(), value: JsonValue::text("pipe") },
        ExtractorFilter::Neq { field: "lang".to_string(), value: JsonValue::text("fr") },
    ]);
    let statement = unapplied_content_statement("docs", &binding, None).unwrap();
    assert_eq!(
        statement.sql,
        "select * from content where repository_id=$1 and COALESCE(cast(extractor_bindings_state->'state'->>$2 as int),0) < 1 and metadata->>$3 = $4 and metadata->>$5 != $6"
    );
    assert_eq!(statement.values, vec!["docs", "b1", "topic", "pipe", "lang", "fr"]);
    let statement = unapplied_content_statement("docs", &binding, Some("c1")).unwrap();
    assert_eq!(
        statement.sql,
        "select * from content where repository_id=$1 and COALESCE(cast(extractor_bindings_state->'state'->>$2 as int),0) < 1 and id = $3 and metadata->>$4 = $5 and metadata->>$6 != $7"
    );
    assert_eq!(statement.values, vec!["docs", "b1", "c1", "topic", "pipe", "lang", "fr"]);
}

#[test]
fn statement_with_many_filters_counts_past_nine() {
    let mut filters = Vec::new();
    for i in 0..5 {
        filters.push(ExtractorFilter::Eq {
            field: format!("f{}", i),
            value: JsonValue::text("v"),
        });
    }
    let statement = unapplied_content_statement("docs", &filtered_binding(filters), None).unwrap();
    assert!(statement.sql.ends_with(" and metadata->>$9 = $10 and metadata->>$11 = $12"));
    assert_eq!(statement.values.len(), 12);
}

#[test]
fn statement_refuses_a_filter_that_compares_with_no_string() {
    let binding = filtered_binding(vec![ExtractorFilter::Eq {
        field: "topic".to_string(),
        value: JsonValue::Raw("12".to_string()),
    }]);
    match unapplied_content_statement("docs", &binding, None) {
        Err(RepositoryError::LogicError(m)) => assert_eq!(m, "filter value is not a string"),
        _ => panic!("expected a failure"),
    }
}

#[test]
fn statements_for_marking_and_for_bindings() {
    let statement = mark_content_statement("c1", "b1");
    assert_eq!(
        statement.sql,
        "update content set extractor_bindings_state['state'][$2] = '1' where id=$1"
    );
    assert_eq!(statement.values, vec!["c1", "b1"]);
    let statement = binding_statement("b1");
    assert_eq!(
        statement.sql,
        "select name, metadata, data_connectors, extractor_bindings  from data_repository, jsonb_each(data_repository.extractor_bindings) binding_ids where binding_ids.key = $1"
    );
    assert_eq!(statement.values, vec!["b1"]);
}
