//! Outputs of components, and the schema of the events on them.
//!
//! A schema definition is kept as the description from which the schema layer
//! makes it: the definition of a deserializer, the metadata that every source
//! adds, and the metadata of one source.

use crate::codecs::DeserializerConfig;
use crate::namespace::LogNamespace;
use vstd::prelude::*;

verus! {

/// A path into an event, field by field from the outside in.
#[derive(Clone, Debug)]
pub struct OwnedValuePath {
    pub segments: Vec<String>,
}

impl View for OwnedValuePath {
    type V = Seq<Seq<char>>;

    open spec fn view(&self) -> Seq<Seq<char>> {
        self.segments@.map_values(|segment: String| segment@)
    }
}

impl OwnedValuePath {
    /// The path of the one field `name`. The name is taken as it is: a dot in it
    /// does not part fields.
    pub fn field(name: &str) -> (path: Self)
        ensures
            path@ == seq![name@],
    {
        let path = OwnedValuePath { segments: vec![name.to_string()] };
        assert(path@ =~= seq![name@]);
        path
    }
}

/// The path of metadata in the legacy namespace, with what happens to a value
/// that is already there.
#[derive(Clone, Debug)]
pub enum LegacyKey<P> {
    /// Set the value, whatever was there.
    Overwrite(P),
    /// Set the value if there was none.
    InsertIfEmpty(P),
}

/// The type of a value.
#[derive(Clone, Copy, Debug, PartialEq, Eq, Structural)]
pub enum Kind {
    Bytes,
    Integer,
}

/// The names of the well-known fields of events.
#[derive(Clone, Debug)]
pub struct LogSchema {
    /// The field for the host that an event comes from.
    pub host_key: String,
}

/// One piece of metadata that a source adds to its events.
#[derive(Clone, Debug)]
pub struct SourceMetadata {
    pub source_name: String,
    /// Where it goes in the legacy namespace, if it goes anywhere.
    pub legacy_path: Option<LegacyKey<OwnedValuePath>>,
    /// Where it goes in the other namespace, below the name of the source.
    pub vector_path: OwnedValuePath,
    pub kind: Kind,
    pub meaning: Option<String>,
}

/// The data of `SourceMetadata`.
pub struct SourceMetadataView {
    pub source_name: Seq<char>,
    pub legacy_path: Option<LegacyKey<Seq<Seq<char>>>>,
    pub vector_path: Seq<Seq<char>>,
    pub kind: Kind,
    pub meaning: Option<Seq<char>>,
}

/// The data of a legacy path.
pub open spec fn legacy_path_view(path: Option<LegacyKey<OwnedValuePath>>) -> Option<
    LegacyKey<Seq<Seq<char>>>,
> {
    match path {
        Some(LegacyKey::Overwrite(path)) => Some(LegacyKey::Overwrite(path@)),
        Some(LegacyKey::InsertIfEmpty(path)) => Some(LegacyKey::InsertIfEmpty(path@)),
        None => None,
    }
}

/// The data of an optional text.
pub open spec fn text_view(text: Option<String>) -> Option<Seq<char>> {
    match text {
        Some(text) => Some(text@),
        None => None,
    }
}

impl View for SourceMetadata {
    type V = SourceMetadataView;

    open spec fn view(&self) -> SourceMetadataView {
        SourceMetadataView {
            source_name: self.source_name@,
            legacy_path: legacy_path_view(self.legacy_path),
            vector_path: self.vector_path@,
            kind: self.kind,
            meaning: text_view(self.meaning),
        }
    }
}

/// The schema of the events on an output.
#[derive(Debug)]
pub struct SchemaDefinition<'a> {
    /// The deserializer whose definition this one starts from.
    pub decoding: &'a DeserializerConfig,
    /// The namespace that the definition is for.
    pub log_namespace: LogNamespace,
    /// Whether the metadata that every source adds comes first.
    pub standard_source_metadata: bool,
    /// The metadata of the source, in the order in which it is added.
    pub source_metadata: Vec<SourceMetadata>,
}

/// The data of `SchemaDefinition`.
pub struct SchemaDefinitionView {
    pub decoding: DeserializerConfig,
    pub log_namespace: LogNamespace,
    pub standard_source_metadata: bool,
    pub source_metadata: Seq<SourceMetadataView>,
}

impl<'a> View for SchemaDefinition<'a> {
    type V = SchemaDefinitionView;

    open spec fn view(&self) -> SchemaDefinitionView {
        SchemaDefinitionView {
            decoding: *self.decoding,
            log_namespace: self.log_namespace,
            standard_source_metadata: self.standard_source_metadata,
            source_metadata: self.source_metadata@.map_values(
                |metadata: SourceMetadata| metadata@,
            ),
        }
    }
}

impl<'a> SchemaDefinition<'a> {
    /// The definition of a deserializer in `log_namespace`, with nothing added.
    pub fn of_decoding(decoding: &'a DeserializerConfig, log_namespace: LogNamespace) -> (definition:
        Self)
        ensures
            definition@ == (SchemaDefinitionView {
                decoding: *decoding,
                log_namespace,
                standard_source_metadata: false,
                source_metadata: Seq::empty(),
            }),
    {
        let definition = SchemaDefinition {
            decoding,
            log_namespace,
            standard_source_metadata: false,
            source_metadata: Vec::new(),
        };
        assert(definition@.source_metadata =~= Seq::empty());
        definition
    }

    /// This definition with the metadata that every source adds.
    pub fn with_standard_vector_source_metadata(self) -> (definition: Self)
        ensures
            definition@ == (SchemaDefinitionView { standard_source_metadata: true, ..self@ }),
    {
        SchemaDefinition { standard_source_metadata: true, ..self }
    }

    /// This definition with one more piece of metadata of the source.
    pub fn with_source_metadata(
        self,
        source_name: &str,
        legacy_path: Option<LegacyKey<OwnedValuePath>>,
        vector_path: OwnedValuePath,
        kind: Kind,
        meaning: Option<String>,
    ) -> (definition: Self)
        ensures
            definition@ == (SchemaDefinitionView {
                source_metadata: self@.source_metadata.push(
                    SourceMetadataView {
                        source_name: source_name@,
                        legacy_path: legacy_path_view(legacy_path),
                        vector_path: vector_path@,
                        kind,
                        meaning: text_view(meaning),
                    },
                ),
                ..self@
            }),
    {
        let added = SourceMetadata {
            source_name: source_name.to_string(),
            legacy_path,
            vector_path,
            kind,
            meaning,
        };
        let ghost view = added@;
        let mut source_metadata = self.source_metadata;
        source_metadata.push(added);
        let definition = SchemaDefinition { source_metadata, ..self };
        assert(definition@.source_metadata =~= self@.source_metadata.push(view));
        definition
    }
}

/// An output of a source. Its data type is that of the deserializer's events.
#[derive(Debug)]
pub struct Output<'a> {
    pub decoding: &'a DeserializerConfig,
    pub schema_definition: SchemaDefinition<'a>,
}

/// The data of `Output`.
pub struct OutputView {
    pub decoding: DeserializerConfig,
    pub schema_definition: SchemaDefinitionView,
}

impl<'a> View for Output<'a> {
    type V = OutputView;

    open spec fn view(&self) -> OutputView {
        OutputView { decoding: *self.decoding, schema_definition: self.schema_definition@ }
    }
}

/// The data of a path is its segments, one by one and in order.
pub proof fn law_path_view(path: OwnedValuePath)
    ensures
        path@.len() == path.segments@.len(),
        forall|i: int| 0 <= i < path@.len() ==> #[trigger] path@[i] == path.segments@[i]@,
{
}

/// The data of metadata is that of its parts: the legacy path keeps what happens
/// to a value that is already there.
pub proof fn law_metadata_view(metadata: SourceMetadata)
    ensures
        metadata@.source_name == metadata.source_name@,
        metadata@.vector_path == metadata.vector_path@,
        metadata@.kind == metadata.kind,
        match metadata.legacy_path {
            Some(LegacyKey::Overwrite(path)) => metadata@.legacy_path == Some(
                LegacyKey::Overwrite(path@),
            ),
            Some(LegacyKey::InsertIfEmpty(path)) => metadata@.legacy_path == Some(
                LegacyKey::InsertIfEmpty(path@),
            ),
            None => metadata@.legacy_path is None,
        },
        match metadata.meaning {
            Some(meaning) => metadata@.meaning == Some(meaning@),
            None => metadata@.meaning is None,
        },
{
}

/// The data of an output is that of its parts, with the metadata piece by piece
/// and in order.
pub proof fn law_output_view<'a>(output: Output<'a>)
    ensures
        output@.decoding == *output.decoding,
        output@.schema_definition.decoding == *output.schema_definition.decoding,
        output@.schema_definition.log_namespace == output.schema_definition.log_namespace,
        output@.schema_definition.standard_source_metadata
            == output.schema_definition.standard_source_metadata,
        output@.schema_definition.source_metadata.len()
            == output.schema_definition.source_metadata@.len(),
        forall|i: int|
            0 <= i < output@.schema_definition.source_metadata.len()
                ==> #[trigger] output@.schema_definition.source_metadata[i]
                == output.schema_definition.source_metadata@[i]@,
{
}

/// The path of a field has that one segment.
pub proof fn law_field(name: &str, path: OwnedValuePath)
    requires
        call_ensures(OwnedValuePath::field, (name,), path),
    ensures
        path.segments@.len() == 1,
        path.segments@[0]@ == name@,
{
    law_path_view(path);
    assert(path@[0] == name@);
}

/// The definition of a deserializer has no metadata yet. Adding the metadata that
/// every source adds keeps the rest.
pub proof fn law_definition<'a>(
    decoding: &'a DeserializerConfig,
    namespace: LogNamespace,
    bare: SchemaDefinition<'a>,
    before: SchemaDefinition<'a>,
    standard: SchemaDefinition<'a>,
)
    requires
        call_ensures(SchemaDefinition::of_decoding, (decoding, namespace), bare),
        call_ensures(SchemaDefinition::with_standard_vector_source_metadata, (before,), standard),
    ensures
        *bare.decoding == *decoding,
        bare.log_namespace == namespace,
        !bare.standard_source_metadata,
        bare.source_metadata@.len() == 0,
        standard.standard_source_metadata,
        *standard.decoding == *before.decoding,
        standard.log_namespace == before.log_namespace,
        standard.source_metadata@.len() == before.source_metadata@.len(),
        standard@.source_metadata == before@.source_metadata,
{
    assert(bare@.source_metadata.len() == bare.source_metadata@.len());
    assert(standard@.source_metadata.len() == standard.source_metadata@.len());
    assert(before@.source_metadata.len() == before.source_metadata@.len());
}

/// Metadata is added behind what is there, which stays as it is.
pub proof fn law_metadata_is_added<'a>(
    before: SchemaDefinition<'a>,
    source_name: &str,
    legacy_path: Option<LegacyKey<OwnedValuePath>>,
    vector_path: OwnedValuePath,
    kind: Kind,
    meaning: Option<String>,
    after: SchemaDefinition<'a>,
)
    requires
        call_ensures(
            SchemaDefinition::with_source_metadata,
            (before, source_name, legacy_path, vector_path, kind, meaning),
            after,
        ),
    ensures
        after.source_metadata@.len() == before.source_metadata@.len() + 1,
        forall|i: int|
            0 <= i < before.source_metadata@.len() ==> #[trigger] after.source_metadata@[i]@
                == before.source_metadata@[i]@,
        after.source_metadata@.last().source_name@ == source_name@,
        after.source_metadata@.last().vector_path@ == vector_path@,
        after.source_metadata@.last().kind == kind,
        match (after.source_metadata@.last().legacy_path, legacy_path) {
            (Some(LegacyKey::Overwrite(added)), Some(LegacyKey::Overwrite(given))) => added@
                == given@,
            (Some(LegacyKey::InsertIfEmpty(added)), Some(LegacyKey::InsertIfEmpty(given))) => added@
                == given@,
            (None, None) => true,
            _ => false,
        },
        match (after.source_metadata@.last().meaning, meaning) {
            (Some(added), Some(given)) => added@ == given@,
            (None, None) => true,
            _ => false,
        },
        *after.decoding == *before.decoding,
        after.log_namespace == before.log_namespace,
        after.standard_source_metadata == before.standard_source_metadata,
{
    let n = before.source_metadata@.len() as int;
    assert(before@.source_metadata.len() == n);
    assert(after@.source_metadata.len() == after.source_metadata@.len());
    assert(after@.source_metadata[n] == after.source_metadata@[n]@);
    assert forall|i: int| 0 <= i < n implies #[trigger] after.source_metadata@[i]@
        == before.source_metadata@[i]@ by {
        assert(after@.source_metadata[i] == after.source_metadata@[i]@);
        assert(before@.source_metadata[i] == before.source_metadata@[i]@);
    }
}

} // verus!
