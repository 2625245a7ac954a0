use extraction_store::identity::{derive_pair, derive_quad, derive_triple, to_hex};
use extraction_store::json::{JsonValue, Metadata};
use extraction_store::types::{Chunk, ExtractedAttributes, ExtractorBinding, Text};
use extraction_store::work::Work;
use std::collections::hash_map::DefaultHasher;
use std::hash::{Hash, Hasher};

fn hashed(parts: &[&str]) -> String {
    let mut state = DefaultHasher::new();
    for part in parts {
        part.hash(&mut state);
    }
    format!("{:016x}", state.finish())
}

#[test]
fn hex_of_zero_is_sixteen_zeros() {
    assert_eq!(to_hex(0), "0000000000000000");
}

#[test]
fn hex_pads_small_numbers() {
    assert_eq!(to_hex(255), "00000000000000ff");
    assert_eq!(to_hex(0x1234), "0000000000001234");
}

#[test]
fn hex_of_the_largest_number() {
    assert_eq!(to_hex(u64::MAX), "ffffffffffffffff");
    assert_eq!(to_hex(0x0123_4567_89ab_cdef), "0123456789abcdef");
}

#[test]
fn derive_gives_the_digest_of_the_standard_hasher() {
    let parts = vec!["docs".to_string(), "hello".to_string()];
    assert_eq!(extraction_store::identity::derive(&parts), hashed(&["docs", "hello"]));
    assert_eq!(extraction_store::identity::derive(&Vec::new()), hashed(&[]));
}

#[test]
fn derive_is_deterministic() {
    let parts = vec!["docs".to_string(), "hello".to_string()];
    let first = extraction_store::identity::derive(&parts);
    let second = extraction_store::identity::derive(&parts);
    assert_eq!(first, second);
    assert_eq!(first.len(), 16);
    assert!(first.chars().all(|c| c.is_ascii_hexdigit() && !c.is_ascii_uppercase()));
}

#[test]
fn derive_tells_inputs_apart() {
    let id = derive_pair("docs", "hello");
    assert_ne!(id, derive_pair("docs", "world"));
    assert_ne!(id, derive_pair("other", "hello"));
    assert_ne!(id, derive_pair("hello", "docs"));
    assert_ne!(derive_pair("ab", "c"), derive_pair("a", "bc"));
    assert_ne!(derive_pair("a", ""), derive_pair("", "a"));
}

#[test]
fn derive_tells_many_pairs_apart() {
    let mut seen: Vec<String> = Vec::new();
    for i in 0..40 {
        for j in 0..40 {
            let id = derive_pair(&format!("corpus-{}", i), &format!("text {}", j));
            assert!(!seen.contains(&id));
            seen.push(id);
        }
    }
}

#[test]
fn derive_of_fixed_sizes_agrees_with_derive() {
    assert_eq!(derive_pair("a", "b"), hashed(&["a", "b"]));
    assert_eq!(derive_triple("a", "b", "c"), hashed(&["a", "b", "c"]));
    assert_eq!(derive_quad("a", "b", "c", "d"), hashed(&["a", "b", "c", "d"]));
}

#[test]
fn content_id_comes_from_repository_and_text() {
    let text = Text::from_text("docs", "hello", Metadata::new());
    assert_eq!(text.id, hashed(&["docs", "hello"]));
    assert_eq!(text.text, "hello");
    let again = Text::from_text("docs", "hello", Metadata::new());
    assert_eq!(text.id, again.id);
}

#[test]
fn binding_id_comes_from_repository_extractor_and_index() {
    let binding = ExtractorBinding::new(
        "docs",
        "embedder".to_string(),
        "vectors".to_string(),
        vec![],
        JsonValue::empty_object(),
    );
    assert_eq!(binding.id, hashed(&["docs", "embedder", "vectors"]));
    assert_eq!(binding.extractor_name, "embedder");
    assert_eq!(binding.index_name, "vectors");
}

#[test]
fn work_id_comes_from_content_repository_index_and_extractor() {
    let work = Work::new("c1", "docs", "vectors", "embedder", &JsonValue::empty_object(), None);
    assert_eq!(work.id, hashed(&["c1", "docs", "vectors", "embedder"]));
    let again =
        Work::new("c1", "docs", "vectors", "embedder", &JsonValue::Null, Some("worker"));
    assert_eq!(work.id, again.id);
}

#[test]
fn attributes_id_comes_from_content_and_extractor() {
    let found = ExtractedAttributes::new("c1", JsonValue::text("x"), "tagger");
    assert_eq!(found.id, hashed(&["c1", "tagger"]));
    assert_eq!(found.content_id, "c1");
    assert_eq!(found.extractor_name, "tagger");
}

#[test]
fn chunk_id_comes_from_content_and_text() {
    let chunk = Chunk::new("a fragment".to_string(), "c1".to_string());
    assert_eq!(chunk.chunk_id, hashed(&["c1", "a fragment"]));
    assert_eq!(chunk.text, "a fragment");
    assert_eq!(chunk.content_id, "c1");
}
