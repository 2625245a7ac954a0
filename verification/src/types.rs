//! The values that the store keeps and hands out.

use crate::entity::attributes_index;
use crate::entity::content;
use crate::entity::data_repository;
use crate::entity::extractors;
use crate::identity::{derive_pair, derive_triple, id_of};
use crate::json::{same_text, JsonValue, JsonView, Metadata};
use crate::table::Row;
use crate::vectordbs::IndexDistance;
use crate::views::{lemma_deep_view_push, lemma_take_all, lemma_take_next};
use vstd::prelude::*;
use vstd::std_specs::convert::FromSpecImpl;
use vstd::string::StringExecFns;

verus! {

/// A test on one field of a content item's metadata.
#[derive(Debug)]
pub enum ExtractorFilter {
    Eq { field: String, value: JsonValue },
    Neq { field: String, value: JsonValue },
}

/// What an [`ExtractorFilter`] holds.
pub enum ExtractorFilterView {
    Eq { field: Seq<char>, value: JsonView },
    Neq { field: Seq<char>, value: JsonView },
}

impl DeepView for ExtractorFilter {
    type V = ExtractorFilterView;

    open spec fn deep_view(&self) -> ExtractorFilterView {
        match self {
            ExtractorFilter::Eq { field, value } => ExtractorFilterView::Eq {
                field: field@,
                value: value.deep_view(),
            },
            ExtractorFilter::Neq { field, value } => ExtractorFilterView::Neq {
                field: field@,
                value: value.deep_view(),
            },
        }
    }
}

impl Clone for ExtractorFilter {
    fn clone(&self) -> (res: Self)
        ensures
            res.deep_view() == self.deep_view(),
    {
        match self {
            ExtractorFilter::Eq { field, value } => ExtractorFilter::Eq {
                field: field.clone(),
                value: value.clone(),
            },
            ExtractorFilter::Neq { field, value } => ExtractorFilter::Neq {
                field: field.clone(),
                value: value.clone(),
            },
        }
    }
}

/// Copies a list of filters.
pub fn clone_filters(filters: &Vec<ExtractorFilter>) -> (res: Vec<ExtractorFilter>)
    ensures
        res.deep_view() == filters.deep_view(),
{
    let mut res: Vec<ExtractorFilter> = Vec::new();
    let mut i: usize = 0;
    while i < filters.len()
        invariant
            i <= filters.len(),
            res.deep_view() == filters.deep_view().take(i as int),
        decreases filters.len() - i,
    {
        let copy = filters[i].clone();
        let ghost before = res;
        res.push(copy);
        proof {
            lemma_deep_view_push(before, res, copy);
            lemma_take_next(filters.deep_view(), i as int);
        }
        i = i + 1;
    }
    proof {
        lemma_take_all(filters.deep_view());
    }
    res
}

/// The declaration that an extractor runs over the content of a
/// repository that passes the filters, and writes into an index.
#[derive(Debug)]
pub struct ExtractorBinding {
    pub id: String,
    pub extractor_name: String,
    pub index_name: String,
    pub filters: Vec<ExtractorFilter>,
    pub input_params: JsonValue,
}

/// What an [`ExtractorBinding`] holds.
pub struct ExtractorBindingView {
    pub id: Seq<char>,
    pub extractor_name: Seq<char>,
    pub index_name: Seq<char>,
    pub filters: Seq<ExtractorFilterView>,
    pub input_params: JsonView,
}

impl DeepView for ExtractorBinding {
    type V = ExtractorBindingView;

    open spec fn deep_view(&self) -> ExtractorBindingView {
        ExtractorBindingView {
            id: self.id@,
            extractor_name: self.extractor_name@,
            index_name: self.index_name@,
            filters: self.filters.deep_view(),
            input_params: self.input_params.deep_view(),
        }
    }
}

impl Clone for ExtractorBinding {
    fn clone(&self) -> (res: Self)
        ensures
            res.deep_view() == self.deep_view(),
    {
        ExtractorBinding {
            id: self.id.clone(),
            extractor_name: self.extractor_name.clone(),
            index_name: self.index_name.clone(),
            filters: clone_filters(&self.filters),
            input_params: self.input_params.clone(),
        }
    }
}

impl ExtractorBinding {
    /// A binding of an extractor to an index of a repository. Its
    /// identifier is derived from the names of the repository, the
    /// extractor and the index, in this order.
    pub fn new(
        repository: &str,
        extractor_name: String,
        index_name: String,
        filters: Vec<ExtractorFilter>,
        input_params: JsonValue,
    ) -> (binding: ExtractorBinding)
        ensures
            binding.deep_view() == (ExtractorBindingView {
                id: id_of(seq![repository@, extractor_name@, index_name@]),
                extractor_name: extractor_name@,
                index_name: index_name@,
                filters: filters.deep_view(),
                input_params: input_params.deep_view(),
            }),
    {
        let id = derive_triple(repository, extractor_name.as_str(), index_name.as_str());
        ExtractorBinding { id, extractor_name, index_name, filters, input_params }
    }
}

/// What an extraction event announces.
#[derive(Debug)]
pub enum ExtractionEventPayload {
    ExtractorBindingAdded { repository: String, id: String },
    CreateContent { content_id: String },
}

/// What an [`ExtractionEventPayload`] holds.
pub enum ExtractionEventPayloadView {
    ExtractorBindingAdded { repository: Seq<char>, id: Seq<char> },
    CreateContent { content_id: Seq<char> },
}

impl DeepView for ExtractionEventPayload {
    type V = ExtractionEventPayloadView;

    open spec fn deep_view(&self) -> ExtractionEventPayloadView {
        match self {
            ExtractionEventPayload::ExtractorBindingAdded { repository, id } => {
                ExtractionEventPayloadView::ExtractorBindingAdded { repository: repository@, id: id@ }
            },
            ExtractionEventPayload::CreateContent { content_id } => {
                ExtractionEventPayloadView::CreateContent { content_id: content_id@ }
            },
        }
    }
}

impl Clone for ExtractionEventPayload {
    fn clone(&self) -> (res: Self)
        ensures
            res.deep_view() == self.deep_view(),
    {
        match self {
            ExtractionEventPayload::ExtractorBindingAdded { repository, id } => {
                ExtractionEventPayload::ExtractorBindingAdded {
                    repository: repository.clone(),
                    id: id.clone(),
                }
            },
            ExtractionEventPayload::CreateContent { content_id } => {
                ExtractionEventPayload::CreateContent { content_id: content_id.clone() }
            },
        }
    }
}

/// An entry of the outbox: the announcement of a change that extraction
/// has to follow up.
#[derive(Debug)]
pub struct ExtractionEvent {
    pub id: String,
    pub repository_id: String,
    pub payload: ExtractionEventPayload,
}

/// What an [`ExtractionEvent`] holds.
pub struct ExtractionEventView {
    pub id: Seq<char>,
    pub repository_id: Seq<char>,
    pub payload: ExtractionEventPayloadView,
}

impl DeepView for ExtractionEvent {
    type V = ExtractionEventView;

    open spec fn deep_view(&self) -> ExtractionEventView {
        ExtractionEventView {
            id: self.id@,
            repository_id: self.repository_id@,
            payload: self.payload.deep_view(),
        }
    }
}

impl Clone for ExtractionEvent {
    fn clone(&self) -> (res: Self)
        ensures
            res.deep_view() == self.deep_view(),
    {
        ExtractionEvent {
            id: self.id.clone(),
            repository_id: self.repository_id.clone(),
            payload: self.payload.clone(),
        }
    }
}

/// The kinds of content.
#[derive(Debug, Clone, Copy, PartialEq, Eq, Structural)]
pub enum ContentType {
    Text,
}

impl DeepView for ContentType {
    type V = ContentType;

    open spec fn deep_view(&self) -> ContentType {
        *self
    }
}

impl Default for ContentType {
    fn default() -> (kind: Self)
        ensures
            kind == ContentType::Text,
    {
        ContentType::Text
    }
}

impl ContentType {
    /// The name under which a kind of content is stored.
    pub open spec fn name(self) -> Seq<char> {
        "text"@
    }

    /// The name under which this kind of content is stored.
    pub fn to_string(&self) -> (name: String)
        ensures
            name@ == self.name(),
    {
        String::from_str("text")
    }

    /// The kind of content that is stored under a name.
    pub fn from_str(name: &str) -> (kind: Option<ContentType>)
        ensures
            kind == (if name@ == "text"@ {
                Some(ContentType::Text)
            } else {
                None
            }),
    {
        if same_text(name, "text") {
            Some(ContentType::Text)
        } else {
            None
        }
    }
}

/// A text to be stored as content.
#[derive(Debug)]
pub struct Text {
    pub id: String,
    pub text: String,
    pub metadata: Metadata,
}

/// What a [`Text`] holds.
pub struct TextView {
    pub id: Seq<char>,
    pub text: Seq<char>,
    pub metadata: Map<Seq<char>, JsonView>,
}

impl DeepView for Text {
    type V = TextView;

    open spec fn deep_view(&self) -> TextView {
        TextView { id: self.id@, text: self.text@, metadata: self.metadata.deep_view() }
    }
}

impl Clone for Text {
    fn clone(&self) -> (res: Self)
        ensures
            res.deep_view() == self.deep_view(),
    {
        Text { id: self.id.clone(), text: self.text.clone(), metadata: self.metadata.clone() }
    }
}

impl Text {
    /// A text of a repository. Its identifier is derived from the name of
    /// the repository and the text, in this order.
    pub fn from_text(repository: &str, text: &str, metadata: Metadata) -> (content: Self)
        ensures
            content.deep_view() == (TextView {
                id: id_of(seq![repository@, text@]),
                text: text@,
                metadata: metadata.deep_view(),
            }),
    {
        let id = derive_pair(repository, text);
        Text { id, text: String::from_str(text), metadata }
    }
}

/// What an extractor produces.
#[derive(Debug)]
pub enum ExtractorType {
    Embedding { dim: usize, distance: IndexDistance },
    Attributes { schema: String },
}

/// What an [`ExtractorType`] holds.
pub enum ExtractorTypeView {
    Embedding { dim: usize, distance: IndexDistance },
    Attributes { schema: Seq<char> },
}

impl DeepView for ExtractorType {
    type V = ExtractorTypeView;

    open spec fn deep_view(&self) -> ExtractorTypeView {
        match self {
            ExtractorType::Embedding { dim, distance } => ExtractorTypeView::Embedding {
                dim: *dim,
                distance: *distance,
            },
            ExtractorType::Attributes { schema } => ExtractorTypeView::Attributes {
                schema: schema@,
            },
        }
    }
}

impl Clone for ExtractorType {
    fn clone(&self) -> (res: Self)
        ensures
            res.deep_view() == self.deep_view(),
    {
        match self {
            ExtractorType::Embedding { dim, distance } => ExtractorType::Embedding {
                dim: *dim,
                distance: *distance,
            },
            ExtractorType::Attributes { schema } => ExtractorType::Attributes {
                schema: schema.clone(),
            },
        }
    }
}

/// An extractor as it is recorded.
#[derive(Debug)]
pub struct ExtractorConfig {
    pub name: String,
    pub description: String,
    pub extractor_type: ExtractorType,
    pub input_params: JsonValue,
}

/// What an [`ExtractorConfig`] holds.
pub struct ExtractorConfigView {
    pub name: Seq<char>,
    pub description: Seq<char>,
    pub extractor_type: ExtractorTypeView,
    pub input_params: JsonView,
}

impl DeepView for ExtractorConfig {
    type V = ExtractorConfigView;

    open spec fn deep_view(&self) -> ExtractorConfigView {
        ExtractorConfigView {
            name: self.name@,
            description: self.description@,
            extractor_type: self.extractor_type.deep_view(),
            input_params: self.input_params.deep_view(),
        }
    }
}

impl Clone for ExtractorConfig {
    fn clone(&self) -> (res: Self)
        ensures
            res.deep_view() == self.deep_view(),
    {
        ExtractorConfig {
            name: self.name.clone(),
            description: self.description.clone(),
            extractor_type: self.extractor_type.clone(),
            input_params: self.input_params.clone(),
        }
    }
}

impl Default for ExtractorConfig {
    fn default() -> (config: Self)
        ensures
            config.deep_view() == (ExtractorConfigView {
                name: "default-embedder"@,
                description: "Default Text Embedding Extractor"@,
                extractor_type: ExtractorTypeView::Embedding {
                    dim: 384,
                    distance: IndexDistance::Cosine,
                },
                input_params: JsonView::Raw("{}"@),
            }),
    {
        ExtractorConfig {
            name: String::from_str("default-embedder"),
            description: String::from_str("Default Text Embedding Extractor"),
            extractor_type: ExtractorType::Embedding { dim: 384, distance: IndexDistance::Cosine },
            input_params: JsonValue::empty_object(),
        }
    }
}

/// Where a data connector reads from.
#[derive(Debug)]
pub enum SourceType {
    GoogleContact { metadata: Option<String> },
    Gmail { metadata: Option<String> },
}

/// What a [`SourceType`] holds.
pub enum SourceTypeView {
    GoogleContact { metadata: Option<Seq<char>> },
    Gmail { metadata: Option<Seq<char>> },
}

impl DeepView for SourceType {
    type V = SourceTypeView;

    open spec fn deep_view(&self) -> SourceTypeView {
        match self {
            SourceType::GoogleContact { metadata } => SourceTypeView::GoogleContact {
                metadata: metadata.deep_view(),
            },
            SourceType::Gmail { metadata } => SourceTypeView::Gmail {
                metadata: metadata.deep_view(),
            },
        }
    }
}

/// Copies a string that may be absent.
pub fn clone_optional(text: &Option<String>) -> (res: Option<String>)
    ensures
        res.deep_view() == text.deep_view(),
{
    match text {
        Some(s) => Some(s.clone()),
        None => None,
    }
}

impl Clone for SourceType {
    fn clone(&self) -> (res: Self)
        ensures
            res.deep_view() == self.deep_view(),
    {
        match self {
            SourceType::GoogleContact { metadata } => SourceType::GoogleContact {
                metadata: clone_optional(metadata),
            },
            SourceType::Gmail { metadata } => SourceType::Gmail {
                metadata: clone_optional(metadata),
            },
        }
    }
}

/// A connector that brings data into a repository.
#[derive(Debug)]
pub struct DataConnector {
    pub source: SourceType,
}

/// What a [`DataConnector`] holds.
pub struct DataConnectorView {
    pub source: SourceTypeView,
}

impl DeepView for DataConnector {
    type V = DataConnectorView;

    open spec fn deep_view(&self) -> DataConnectorView {
        DataConnectorView { source: self.source.deep_view() }
    }
}

impl Clone for DataConnector {
    fn clone(&self) -> (res: Self)
        ensures
            res.deep_view() == self.deep_view(),
    {
        DataConnector { source: self.source.clone() }
    }
}

/// Copies a list of connectors.
pub fn clone_connectors(connectors: &Vec<DataConnector>) -> (res: Vec<DataConnector>)
    ensures
        res.deep_view() == connectors.deep_view(),
{
    let mut res: Vec<DataConnector> = Vec::new();
    let mut i: usize = 0;
    while i < connectors.len()
        invariant
            i <= connectors.len(),
            res.deep_view() == connectors.deep_view().take(i as int),
        decreases connectors.len() - i,
    {
        let copy = connectors[i].clone();
        let ghost before = res;
        res.push(copy);
        proof {
            lemma_deep_view_push(before, res, copy);
            lemma_take_next(connectors.deep_view(), i as int);
        }
        i = i + 1;
    }
    proof {
        lemma_take_all(connectors.deep_view());
    }
    res
}

/// Copies a list of bindings.
pub fn clone_bindings(bindings: &Vec<ExtractorBinding>) -> (res: Vec<ExtractorBinding>)
    ensures
        res.deep_view() == bindings.deep_view(),
{
    let mut res: Vec<ExtractorBinding> = Vec::new();
    let mut i: usize = 0;
    while i < bindings.len()
        invariant
            i <= bindings.len(),
            res.deep_view() == bindings.deep_view().take(i as int),
        decreases bindings.len() - i,
    {
        let copy = bindings[i].clone();
        let ghost before = res;
        res.push(copy);
        proof {
            lemma_deep_view_push(before, res, copy);
            lemma_take_next(bindings.deep_view(), i as int);
        }
        i = i + 1;
    }
    proof {
        lemma_take_all(bindings.deep_view());
    }
    res
}

/// A repository: a named collection of content with the bindings and the
/// connectors declared for it.
#[derive(Debug)]
pub struct DataRepository {
    pub name: String,
    pub data_connectors: Vec<DataConnector>,
    pub extractor_bindings: Vec<ExtractorBinding>,
    pub metadata: Metadata,
}

/// What a [`DataRepository`] holds.
pub struct DataRepositoryView {
    pub name: Seq<char>,
    pub data_connectors: Seq<DataConnectorView>,
    pub extractor_bindings: Seq<ExtractorBindingView>,
    pub metadata: Map<Seq<char>, JsonView>,
}

impl DeepView for DataRepository {
    type V = DataRepositoryView;

    open spec fn deep_view(&self) -> DataRepositoryView {
        DataRepositoryView {
            name: self.name@,
            data_connectors: self.data_connectors.deep_view(),
            extractor_bindings: self.extractor_bindings.deep_view(),
            metadata: self.metadata.deep_view(),
        }
    }
}

impl Clone for DataRepository {
    fn clone(&self) -> (res: Self)
        ensures
            res.deep_view() == self.deep_view(),
    {
        DataRepository {
            name: self.name.clone(),
            data_connectors: clone_connectors(&self.data_connectors),
            extractor_bindings: clone_bindings(&self.extractor_bindings),
            metadata: self.metadata.clone(),
        }
    }
}

/// A chunk together with the metadata of the content that it is a part of.
#[derive(Debug)]
pub struct ChunkWithMetadata {
    pub chunk_id: String,
    pub content_id: String,
    pub text: String,
    pub metadata: Metadata,
}

/// What a [`ChunkWithMetadata`] holds.
pub struct ChunkWithMetadataView {
    pub chunk_id: Seq<char>,
    pub content_id: Seq<char>,
    pub text: Seq<char>,
    pub metadata: Map<Seq<char>, JsonView>,
}

impl DeepView for ChunkWithMetadata {
    type V = ChunkWithMetadataView;

    open spec fn deep_view(&self) -> ChunkWithMetadataView {
        ChunkWithMetadataView {
            chunk_id: self.chunk_id@,
            content_id: self.content_id@,
            text: self.text@,
            metadata: self.metadata.deep_view(),
        }
    }
}

/// What an attribute extractor found in one content item.
#[derive(Debug)]
pub struct ExtractedAttributes {
    pub id: String,
    pub content_id: String,
    pub attributes: JsonValue,
    pub extractor_name: String,
}

/// What an [`ExtractedAttributes`] holds.
pub struct ExtractedAttributesView {
    pub id: Seq<char>,
    pub content_id: Seq<char>,
    pub attributes: JsonView,
    pub extractor_name: Seq<char>,
}

impl DeepView for ExtractedAttributes {
    type V = ExtractedAttributesView;

    open spec fn deep_view(&self) -> ExtractedAttributesView {
        ExtractedAttributesView {
            id: self.id@,
            content_id: self.content_id@,
            attributes: self.attributes.deep_view(),
            extractor_name: self.extractor_name@,
        }
    }
}

impl Clone for ExtractedAttributes {
    fn clone(&self) -> (res: Self)
        ensures
            res.deep_view() == self.deep_view(),
    {
        ExtractedAttributes {
            id: self.id.clone(),
            content_id: self.content_id.clone(),
            attributes: self.attributes.clone(),
            extractor_name: self.extractor_name.clone(),
        }
    }
}

impl ExtractedAttributes {
    /// The attributes that an extractor found in a content item. The
    /// identifier is derived from the content's identifier and the
    /// extractor's name, in this order.
    pub fn new(content_id: &str, attributes: JsonValue, extractor_name: &str) -> (found: Self)
        ensures
            found.deep_view() == (ExtractedAttributesView {
                id: id_of(seq![content_id@, extractor_name@]),
                content_id: content_id@,
                attributes: attributes.deep_view(),
                extractor_name: extractor_name@,
            }),
    {
        let id = derive_pair(content_id, extractor_name);
        ExtractedAttributes {
            id,
            content_id: String::from_str(content_id),
            attributes,
            extractor_name: String::from_str(extractor_name),
        }
    }
}

/// A content item as it is handed out.
#[derive(Debug)]
pub struct Content<T> {
    pub id: String,
    pub content: T,
    pub metadata: Metadata,
}

/// What a [`Content`] holds.
pub struct ContentView<V> {
    pub id: Seq<char>,
    pub content: V,
    pub metadata: Map<Seq<char>, JsonView>,
}

impl<T: DeepView> DeepView for Content<T> {
    type V = ContentView<T::V>;

    open spec fn deep_view(&self) -> ContentView<T::V> {
        ContentView {
            id: self.id@,
            content: self.content.deep_view(),
            metadata: self.metadata.deep_view(),
        }
    }
}

impl<T: DeepView> Content<T> {
    /// A content item.
    pub fn new(id: String, content: T, metadata: Metadata) -> (item: Self)
        ensures
            item.deep_view() == (ContentView {
                id: id@,
                content: content.deep_view(),
                metadata: metadata.deep_view(),
            }),
    {
        Content { id, content, metadata }
    }
}

/// A fragment of the text of a content item.
#[derive(Debug)]
pub struct Chunk {
    pub text: String,
    pub chunk_id: String,
    pub content_id: String,
}

/// What a [`Chunk`] holds.
pub struct ChunkView {
    pub text: Seq<char>,
    pub chunk_id: Seq<char>,
    pub content_id: Seq<char>,
}

impl DeepView for Chunk {
    type V = ChunkView;

    open spec fn deep_view(&self) -> ChunkView {
        ChunkView { text: self.text@, chunk_id: self.chunk_id@, content_id: self.content_id@ }
    }
}

impl Clone for Chunk {
    fn clone(&self) -> (res: Self)
        ensures
            res.deep_view() == self.deep_view(),
    {
        Chunk {
            text: self.text.clone(),
            chunk_id: self.chunk_id.clone(),
            content_id: self.content_id.clone(),
        }
    }
}

impl Chunk {
    /// A chunk of a content item. Its identifier is derived from the
    /// content's identifier and the chunk's text, in this order.
    pub fn new(text: String, content_id: String) -> (chunk: Self)
        ensures
            chunk.deep_view() == (ChunkView {
                text: text@,
                chunk_id: id_of(seq![content_id@, text@]),
                content_id: content_id@,
            }),
    {
        let chunk_id = derive_pair(content_id.as_str(), text.as_str());
        Chunk { text, chunk_id, content_id }
    }
}

impl Row for ExtractorBinding {
    open spec fn key_of(row: ExtractorBindingView) -> Seq<char> {
        row.id
    }

    fn key(&self) -> (key: &str) {
        self.id.as_str()
    }

    fn replica(&self) -> (copy: Self) {
        self.clone()
    }
}

/// The extractor that a stored row stands for.
pub open spec fn extractor_of_row(row: extractors::ModelView) -> ExtractorConfigView {
    ExtractorConfigView {
        name: row.id,
        description: row.description,
        extractor_type: row.extractor_type,
        input_params: row.input_params,
    }
}

impl From<extractors::Model> for ExtractorConfig {
    fn from(model: extractors::Model) -> (config: Self)
        ensures
            config.deep_view() == extractor_of_row(model.deep_view()),
    {
        ExtractorConfig {
            name: model.id,
            description: model.description,
            extractor_type: model.extractor_type,
            input_params: model.input_params,
        }
    }
}

impl FromSpecImpl<extractors::Model> for ExtractorConfig {
    open spec fn obeys_from_spec() -> bool {
        true
    }

    open spec fn from_spec(model: extractors::Model) -> ExtractorConfig {
        ExtractorConfig {
            name: model.id,
            description: model.description,
            extractor_type: model.extractor_type,
            input_params: model.input_params,
        }
    }
}

/// The repository that a stored row stands for.
pub open spec fn repository_of_row(row: data_repository::ModelView) -> DataRepositoryView {
    DataRepositoryView {
        name: row.name,
        data_connectors: row.data_connectors,
        extractor_bindings: row.extractor_bindings,
        metadata: row.metadata,
    }
}

impl From<data_repository::Model> for DataRepository {
    fn from(model: data_repository::Model) -> (repository: Self)
        ensures
            repository.deep_view() == repository_of_row(model.deep_view()),
    {
        DataRepository {
            name: model.name,
            data_connectors: model.data_connectors,
            extractor_bindings: model.extractor_bindings,
            metadata: model.metadata,
        }
    }
}

impl FromSpecImpl<data_repository::Model> for DataRepository {
    open spec fn obeys_from_spec() -> bool {
        true
    }

    open spec fn from_spec(model: data_repository::Model) -> DataRepository {
        DataRepository {
            name: model.name,
            data_connectors: model.data_connectors,
            extractor_bindings: model.extractor_bindings,
            metadata: model.metadata,
        }
    }
}

/// The attributes that a stored row stands for.
pub open spec fn attributes_of_row(row: attributes_index::ModelView) -> ExtractedAttributesView {
    ExtractedAttributesView {
        id: row.id,
        content_id: row.content_id,
        attributes: row.data,
        extractor_name: row.extractor_id,
    }
}

impl From<attributes_index::Model> for ExtractedAttributes {
    fn from(model: attributes_index::Model) -> (found: Self)
        ensures
            found.deep_view() == attributes_of_row(model.deep_view()),
    {
        ExtractedAttributes {
            id: model.id,
            content_id: model.content_id,
            attributes: model.data,
            extractor_name: model.extractor_id,
        }
    }
}

impl FromSpecImpl<attributes_index::Model> for ExtractedAttributes {
    open spec fn obeys_from_spec() -> bool {
        true
    }

    open spec fn from_spec(model: attributes_index::Model) -> ExtractedAttributes {
        ExtractedAttributes {
            id: model.id,
            content_id: model.content_id,
            attributes: model.data,
            extractor_name: model.extractor_id,
        }
    }
}

/// The content item that a stored row stands for.
pub open spec fn content_of_row(row: content::ModelView) -> ContentView<Seq<char>> {
    ContentView { id: row.id, content: row.text, metadata: row.metadata }
}

impl From<content::Model> for Content<String> {
    fn from(model: content::Model) -> (item: Self)
        ensures
            item.deep_view() == content_of_row(model.deep_view()),
    {
        Content { id: model.id, content: model.text, metadata: model.metadata }
    }
}

impl FromSpecImpl<content::Model> for Content<String> {
    open spec fn obeys_from_spec() -> bool {
        true
    }

    open spec fn from_spec(model: content::Model) -> Content<String> {
        Content { id: model.id, content: model.text, metadata: model.metadata }
    }
}

} // verus!
