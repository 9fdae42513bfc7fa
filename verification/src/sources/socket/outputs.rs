//! The output of the `socket` source and the schema of its events.

use super::{Mode, SocketConfig};
use crate::namespace::LogNamespace;
use crate::schema::{
    Kind, LegacyKey, LogSchema, Output, OutputView, OwnedValuePath, SchemaDefinition,
    SchemaDefinitionView, SourceMetadataView,
};
use vstd::prelude::*;

verus! {

/// The legacy path for a field that the configuration may name.
pub open spec fn configured_path(key: Option<String>) -> Option<LegacyKey<Seq<Seq<char>>>> {
    match key {
        Some(name) => Some(LegacyKey::InsertIfEmpty(seq![name@])),
        None => None,
    }
}

/// The metadata that holds the host of the peer.
pub open spec fn host_metadata(host_key: Option<String>, schema: LogSchema) -> SourceMetadataView {
    SourceMetadataView {
        source_name: SocketConfig::NAME@,
        legacy_path: configured_path(host_key),
        vector_path: seq![schema.host_key@],
        kind: Kind::Bytes,
        meaning: None,
    }
}

/// The metadata that holds the port of the peer, which events carry as a number.
pub open spec fn port_metadata(port_key: Option<String>) -> SourceMetadataView {
    SourceMetadataView {
        source_name: SocketConfig::NAME@,
        legacy_path: configured_path(port_key),
        vector_path: seq!["port"@],
        kind: Kind::Integer,
        meaning: None,
    }
}

/// The metadata that a source in `mode` adds: the host in every mode, and the
/// port where peers have one.
pub open spec fn metadata_spec(mode: Mode, schema: LogSchema) -> Seq<SourceMetadataView> {
    match mode {
        Mode::Tcp(config) => seq![
            host_metadata(config.host_key, schema),
            port_metadata(config.port_key),
        ],
        Mode::Udp(config) => seq![
            host_metadata(config.host_key, schema),
            port_metadata(config.port_key),
        ],
        Mode::UnixDatagram(config) => seq![host_metadata(config.host_key, schema)],
        Mode::UnixStream(config) => seq![host_metadata(config.host_key, schema)],
    }
}

/// The one output of a source in `mode`. Its namespace is the one that the
/// source asks for, whatever the pipeline as a whole uses.
pub open spec fn output_spec(mode: Mode, schema: LogSchema) -> OutputView {
    OutputView {
        decoding: mode.decoding_spec(),
        schema_definition: SchemaDefinitionView {
            decoding: mode.decoding_spec(),
            log_namespace: crate::namespace::namespace_of(mode.log_namespace_setting()),
            standard_source_metadata: true,
            source_metadata: metadata_spec(mode, schema),
        },
    }
}

/// The legacy path for a field that the configuration may name.
fn legacy_path(key: &Option<String>) -> (path: Option<LegacyKey<OwnedValuePath>>)
    ensures
        crate::schema::legacy_path_view(path) == configured_path(*key),
{
    match key {
        Some(name) => Some(LegacyKey::InsertIfEmpty(OwnedValuePath::field(name.as_str()))),
        None => None,
    }
}

impl SocketConfig {
    /// The outputs of the source: one, with the schema of its events.
    pub fn outputs(&self, global_log_namespace: LogNamespace, log_schema: &LogSchema) -> (outputs:
        Vec<Output<'_>>)
        ensures
            outputs@.len() == 1,
            outputs@[0]@ == output_spec(self.mode, *log_schema),
    {
        let log_namespace = global_log_namespace.merge(Some(self.log_namespace()));
        let definition = SchemaDefinition::of_decoding(
            self.decoding(),
            log_namespace,
        ).with_standard_vector_source_metadata();
        let host_path = OwnedValuePath::field(log_schema.host_key.as_str());
        let definition = match &self.mode {
            Mode::Tcp(config) => definition.with_source_metadata(
                Self::NAME,
                legacy_path(&config.host_key),
                host_path,
                Kind::Bytes,
                None,
            ).with_source_metadata(
                Self::NAME,
                legacy_path(&config.port_key),
                OwnedValuePath::field("port"),
                Kind::Integer,
                None,
            ),
            Mode::Udp(config) => definition.with_source_metadata(
                Self::NAME,
                legacy_path(&config.host_key),
                host_path,
                Kind::Bytes,
                None,
            ).with_source_metadata(
                Self::NAME,
                legacy_path(&config.port_key),
                OwnedValuePath::field("port"),
                Kind::Integer,
                None,
            ),
            Mode::UnixDatagram(config) => definition.with_source_metadata(
                Self::NAME,
                legacy_path(&config.host_key),
                host_path,
                Kind::Bytes,
                None,
            ),
            Mode::UnixStream(config) => definition.with_source_metadata(
                Self::NAME,
                legacy_path(&config.host_key),
                host_path,
                Kind::Bytes,
                None,
            ),
        };
        assert(definition@.source_metadata =~= metadata_spec(self.mode, *log_schema));
        vec![Output { decoding: self.decoding(), schema_definition: definition }]
    }
}

} // verus!
