//! What the calls of the `socket` source do, from their arguments to their results.

use super::entries::{Field, ReadError};
use super::laws::{
    announces, law_announced_metadata, law_conflicts_are_found, law_generated_config_is_read,
    law_output, listen_address, own_setting,
};
use super::plan::{stream_framing, BuildStep, TcpPlan, TcpSource};
use super::read::address_text;
use super::read_laws::{
    field_key, fits, has_text, is_decoding_of, is_framing_of, is_number_of, is_size_of, is_text_of,
    is_truth_of, law_complaint, law_tcp_accepted, law_tcp_settings, law_udp_accepted,
    law_udp_settings, law_unix_accepted, law_unix_settings, may_be_number, may_be_table,
    may_be_text, may_be_truth, may_have_tls, says_number, says_table, says_text, says_truth,
};
use super::tcp::TcpConfig;
use super::udp::UdpConfig;
use super::unix::UnixConfig;
use super::{Mode, SocketConfig};
use crate::codecs::{DecodingConfig, DeserializerConfig, Framing, FramingConfig};
use crate::error::{ComponentError, Result};
use crate::namespace::{LogNamespace, SourceContext};
use crate::net::{Protocol, Resource, SocketAddr, SocketListenAddr};
use crate::schema::{Kind, LegacyKey, LogSchema, Output, SourceMetadata};
use crate::toml_value::toml_view;
use vstd::prelude::*;

verus! {

/// A decoder is made from the configured deserializer, for the legacy namespace.
pub open spec fn decodes_as<'a>(decoder: DecodingConfig<'a>, decoding: DeserializerConfig) -> bool {
    *decoder.decoding == decoding && decoder.log_namespace == LogNamespace::Legacy
}

/// A stream is cut as it is configured: by the framing, by newlines up to the
/// maximum length, or as the deserializer says.
pub open spec fn cuts_stream_as<'a>(
    decoder: DecodingConfig<'a>,
    framing: Option<FramingConfig>,
    max_length: Option<usize>,
    decoding: DeserializerConfig,
) -> bool {
    match decoder.framing {
        Framing::Configured(used) => framing == Some(*used) && max_length is None,
        Framing::NewlineDelimited { max_length: used } => framing is None && max_length == Some(
            used,
        ),
        Framing::StreamDefault(used) => framing is None && max_length is None && *used == decoding,
        Framing::MessageDefault => false,
    }
}

/// Metadata is kept apart from events exactly if the source says so, or says
/// nothing and the pipeline does.
pub open spec fn is_namespaced_as(
    namespace: LogNamespace,
    own: Option<bool>,
    cx: SourceContext,
) -> bool {
    namespace == LogNamespace::Vector <==> (own == Some(true) || (own is None
        && cx.schema_log_namespace == Some(true)))
}

/// Building a TCP source fails exactly if it has both a framing and a maximum
/// length. Otherwise the TLS settings are to be loaded that the configuration has,
/// for the server side, whether or not a field for client metadata is named.
pub proof fn law_build_tcp<'a>(
    socket: &'a SocketConfig,
    config: TcpConfig,
    cx: SourceContext,
    step: Result<BuildStep<'a>>,
)
    requires
        call_ensures(SocketConfig::build, (socket, &cx), step),
        socket.mode == Mode::Tcp(config),
    ensures
        match step {
            Ok(BuildStep::LoadTls(plan)) => {
                &&& config.framing is None || config.max_length is None
                &&& *plan.config == config
                &&& plan.tls_config is Some <==> config.tls is Some
                &&& config.tls is Some ==> *plan.tls_config->0 == config.tls->0.tls_config
                &&& plan.tls_for_server
                &&& plan.tls_client_metadata_key is Some <==> (config.tls is Some
                    && config.tls->0.client_metadata_key is Some)
                &&& plan.tls_client_metadata_key is Some ==> *plan.tls_client_metadata_key->0
                    == config.tls->0.client_metadata_key->0
                &&& decodes_as(plan.decoder, config.decoding)
                &&& cuts_stream_as(
                    plan.decoder,
                    config.framing,
                    config.max_length,
                    config.decoding,
                )
                &&& is_namespaced_as(plan.log_namespace, config.log_namespace, cx)
            },
            Ok(_) => false,
            Err(error) => config.framing is Some && config.max_length is Some
                && error is MaxLengthWithFraming,
        },
{
}

/// Building a UDP source always succeeds, with the configured framing and
/// deserializer.
pub proof fn law_build_udp<'a>(
    socket: &'a SocketConfig,
    config: UdpConfig,
    cx: SourceContext,
    step: Result<BuildStep<'a>>,
)
    requires
        call_ensures(SocketConfig::build, (socket, &cx), step),
        socket.mode == Mode::Udp(config),
    ensures
        match step {
            Ok(BuildStep::Udp(source)) => {
                &&& *source.config == config
                &&& decodes_as(source.decoder, config.decoding)
                &&& source.decoder.framing is Configured
                &&& *source.decoder.framing->Configured_0 == config.framing
                &&& is_namespaced_as(source.log_namespace, config.log_namespace, cx)
            },
            _ => false,
        },
{
}

/// Building a source on a Unix domain socket fails exactly if it reads a stream and
/// has both a framing and a maximum length. Datagrams are kept whole unless a
/// framing is configured, whatever the maximum length.
pub proof fn law_build_unix<'a>(
    socket: &'a SocketConfig,
    config: UnixConfig,
    cx: SourceContext,
    step: Result<BuildStep<'a>>,
)
    requires
        call_ensures(SocketConfig::build, (socket, &cx), step),
        socket.mode == Mode::UnixDatagram(config) || socket.mode == Mode::UnixStream(config),
    ensures
        match step {
            Ok(BuildStep::UnixDatagram(source)) => {
                &&& socket.mode is UnixDatagram
                &&& *source.config == config
                &&& decodes_as(source.decoder, config.decoding)
                &&& match source.decoder.framing {
                    Framing::Configured(used) => config.framing == Some(*used),
                    Framing::MessageDefault => config.framing is None,
                    _ => false,
                }
                &&& is_namespaced_as(source.log_namespace, config.log_namespace, cx)
            },
            Ok(BuildStep::UnixStream(source)) => {
                &&& socket.mode is UnixStream
                &&& *source.config == config
                &&& decodes_as(source.decoder, config.decoding)
                &&& cuts_stream_as(
                    source.decoder,
                    config.framing,
                    config.max_length,
                    config.decoding,
                )
                &&& is_namespaced_as(source.log_namespace, config.log_namespace, cx)
            },
            Ok(_) => false,
            Err(error) => socket.mode is UnixStream && config.framing is Some
                && config.max_length is Some && error is MaxLengthWithFraming,
        },
{
}

/// The framing that is chosen for a stream, and when none can be.
pub proof fn law_stream_framing<'a>(
    framing: &'a Option<FramingConfig>,
    max_length: Option<usize>,
    decoding: &'a DeserializerConfig,
    chosen: Result<Framing<'a>>,
)
    requires
        call_ensures(stream_framing, (framing, max_length, decoding), chosen),
    ensures
        match chosen {
            Ok(Framing::Configured(used)) => *framing == Some(*used) && max_length is None,
            Ok(Framing::NewlineDelimited { max_length: used }) => *framing is None && max_length
                == Some(used),
            Ok(Framing::StreamDefault(used)) => *framing is None && max_length is None && *used
                == *decoding,
            Ok(Framing::MessageDefault) => false,
            Err(error) => *framing is Some && max_length is Some && error is MaxLengthWithFraming,
        },
{
}

/// A TCP source runs exactly if its TLS settings were loaded, and then with them
/// and with what is configured: address, keepalive settings, timeout, field for
/// client metadata, buffer, limit, decoder and log namespace. It does not
/// acknowledge. If they were not loaded, the reason is handed on.
pub proof fn law_built_and_completed<'a, T>(
    socket: &'a SocketConfig,
    config: TcpConfig,
    cx: SourceContext,
    plan: TcpPlan<'a>,
    tls: core::result::Result<T, String>,
    source: Result<TcpSource<'a, T>>,
)
    requires
        call_ensures(SocketConfig::build, (socket, &cx), Ok(BuildStep::LoadTls(plan))),
        socket.mode == Mode::Tcp(config),
        call_ensures(TcpPlan::complete, (plan, tls), source),
    ensures
        match (source, tls) {
            (Ok(source), Ok(loaded)) => {
                &&& source.tls == loaded
                &&& *source.config == config
                &&& source.address == config.address
                &&& source.keepalive is Some <==> config.keepalive is Some
                &&& config.keepalive is Some ==> *source.keepalive->0 == config.keepalive->0
                &&& source.shutdown_timeout_secs == config.shutdown_timeout_secs
                &&& source.tls_client_metadata_key is Some <==> (config.tls is Some
                    && config.tls->0.client_metadata_key is Some)
                &&& source.tls_client_metadata_key is Some ==> *source.tls_client_metadata_key->0
                    == config.tls->0.client_metadata_key->0
                &&& source.receive_buffer_bytes == config.receive_buffer_bytes
                &&& source.connection_limit == config.connection_limit
                &&& !source.acknowledgements
                &&& decodes_as(source.decoder, config.decoding)
                &&& cuts_stream_as(
                    source.decoder,
                    config.framing,
                    config.max_length,
                    config.decoding,
                )
                &&& is_namespaced_as(source.log_namespace, config.log_namespace, cx)
            },
            (Err(error), Err(reason)) => error == ComponentError::Tls(reason),
            _ => false,
        },
{
}

/// A plan that was not built here is completed as it stands.
pub proof fn law_completed<'a, T>(
    plan: TcpPlan<'a>,
    tls: core::result::Result<T, String>,
    source: Result<TcpSource<'a, T>>,
)
    requires
        call_ensures(TcpPlan::complete, (plan, tls), source),
    ensures
        match (source, tls) {
            (Ok(source), Ok(loaded)) => {
                &&& source.tls == loaded
                &&& source.config == plan.config
                &&& source.decoder == plan.decoder
                &&& source.log_namespace == plan.log_namespace
                &&& source.tls_client_metadata_key == plan.tls_client_metadata_key
                &&& source.address == plan.config.address
                &&& source.shutdown_timeout_secs == plan.config.shutdown_timeout_secs
                &&& source.receive_buffer_bytes == plan.config.receive_buffer_bytes
                &&& source.connection_limit == plan.config.connection_limit
            },
            (Err(error), Err(reason)) => error == ComponentError::Tls(reason),
            _ => false,
        },
{
}

/// A piece of metadata goes into the field `name`, if there is one, unless that
/// field has a value; otherwise under `vector_name` below the name of the source.
pub open spec fn goes_into(
    metadata: SourceMetadata,
    name: Option<String>,
    vector_name: Seq<char>,
    kind: Kind,
) -> bool {
    &&& metadata.source_name@ == "socket"@
    &&& match metadata.legacy_path {
        Some(LegacyKey::InsertIfEmpty(path)) => name is Some && path.segments@.len() == 1
            && path.segments@[0]@ == name->0@,
        Some(LegacyKey::Overwrite(_)) => false,
        None => name is None,
    }
    &&& metadata.vector_path.segments@.len() == 1
    &&& metadata.vector_path.segments@[0]@ == vector_name
    &&& metadata.kind == kind
    &&& metadata.meaning is None
}

/// The field that a mode names for the host.
pub open spec fn named_for_host(mode: Mode) -> Option<String> {
    match mode {
        Mode::Tcp(config) => config.host_key,
        Mode::Udp(config) => config.host_key,
        Mode::UnixDatagram(config) => config.host_key,
        Mode::UnixStream(config) => config.host_key,
    }
}

/// The field that a network mode names for the port.
pub open spec fn named_for_port(mode: Mode) -> Option<String> {
    match mode {
        Mode::Tcp(config) => config.port_key,
        Mode::Udp(config) => config.port_key,
        _ => None,
    }
}

/// A source has one output. In every mode its definition starts from the
/// deserializer of the source, is for the namespace that the source asks for
/// whatever the pipeline uses, has the metadata that every source adds, and the
/// host in the field that is named for it; in the network modes then the port in
/// its own field, and otherwise no more.
pub proof fn law_outputs<'a>(
    socket: &'a SocketConfig,
    global: LogNamespace,
    schema: &'a LogSchema,
    outputs: Vec<Output<'a>>,
)
    requires
        call_ensures(SocketConfig::outputs, (socket, global, schema), outputs),
    ensures
        outputs@.len() == 1,
        ({
            let definition = outputs@[0].schema_definition;
            let metadata = definition.source_metadata@;
            &&& definition.standard_source_metadata
            &&& definition.log_namespace == LogNamespace::Vector <==> own_setting(socket.mode)
                == Some(true)
            &&& *definition.decoding == *outputs@[0].decoding
            &&& match socket.mode {
                Mode::Tcp(config) => *definition.decoding == config.decoding,
                Mode::Udp(config) => *definition.decoding == config.decoding,
                Mode::UnixDatagram(config) => *definition.decoding == config.decoding,
                Mode::UnixStream(config) => *definition.decoding == config.decoding,
            }
            &&& metadata.len() == (if socket.mode is Tcp || socket.mode is Udp {
                2int
            } else {
                1
            })
            &&& goes_into(
                metadata[0],
                named_for_host(socket.mode),
                schema.host_key@,
                Kind::Bytes,
            )
            &&& socket.mode is Tcp || socket.mode is Udp ==> goes_into(
                metadata[1],
                named_for_port(socket.mode),
                "port"@,
                Kind::Integer,
            )
        }),
{
    law_output(socket.mode, *schema);
    law_announced_metadata(socket.mode, *schema);
    let metadata = outputs@[0].schema_definition.source_metadata@;
    let views = outputs@[0]@.schema_definition.source_metadata;
    assert(views.len() == metadata.len());
    assert(views[0] == metadata[0]@);
    lemma_goes_into(metadata[0], named_for_host(socket.mode), schema.host_key@, Kind::Bytes);
    if socket.mode is Tcp || socket.mode is Udp {
        assert(views[1] == metadata[1]@);
        lemma_goes_into(metadata[1], named_for_port(socket.mode), "port"@, Kind::Integer);
    }
}

proof fn lemma_goes_into(
    metadata: SourceMetadata,
    name: Option<String>,
    vector_name: Seq<char>,
    kind: Kind,
)
    requires
        announces(metadata@, name, vector_name, kind),
    ensures
        goes_into(metadata, name, vector_name, kind),
{
    crate::schema::law_metadata_view(metadata);
    crate::schema::law_path_view(metadata.vector_path);
    assert(metadata.vector_path@[0] == vector_name);
    match metadata.legacy_path {
        Some(LegacyKey::InsertIfEmpty(path)) => {
            assert(path@[0] == name->0@);
            crate::schema::law_path_view(path);
        },
        _ => {},
    }
}

/// What the pipeline as a whole uses does not matter for the outputs of a source.
pub proof fn law_outputs_do_not_depend_on_pipeline<'a>(
    socket: &'a SocketConfig,
    one: LogNamespace,
    other: LogNamespace,
    schema: &'a LogSchema,
    one_outputs: Vec<Output<'a>>,
    other_outputs: Vec<Output<'a>>,
)
    requires
        call_ensures(SocketConfig::outputs, (socket, one, schema), one_outputs),
        call_ensures(SocketConfig::outputs, (socket, other, schema), other_outputs),
    ensures
        one_outputs@.len() == other_outputs@.len(),
        one_outputs@[0]@ == other_outputs@[0]@,
{
}

/// A network source announces exactly one resource: the port of its address with
/// the protocol of its mode, for IPv4 and IPv6 alike, or its file descriptor. A
/// source on a socket file announces none.
pub proof fn law_announced_resources(socket: SocketConfig, resources: Vec<Resource>)
    requires
        call_ensures(SocketConfig::resources, (&socket,), resources),
    ensures
        match socket.mode {
            Mode::Tcp(config) => resources@.len() == 1 && match config.address {
                SocketListenAddr::SocketAddr(addr) => resources@[0] == Resource::Port(
                    addr,
                    Protocol::Tcp,
                ),
                SocketListenAddr::SystemdFd(offset) => resources@[0] == Resource::SystemFdOffset(
                    offset,
                ),
            },
            Mode::Udp(config) => resources@.len() == 1 && match config.address {
                SocketListenAddr::SocketAddr(addr) => resources@[0] == Resource::Port(
                    addr,
                    Protocol::Udp,
                ),
                SocketListenAddr::SystemdFd(offset) => resources@[0] == Resource::SystemFdOffset(
                    offset,
                ),
            },
            Mode::UnixDatagram(_) => resources@.len() == 0,
            Mode::UnixStream(_) => resources@.len() == 0,
        },
{
}

/// Two sources announce a common resource exactly if they listen at the same
/// address, with the same protocol unless that is a file descriptor.
pub proof fn law_announced_conflicts(
    one: SocketConfig,
    other: SocketConfig,
    one_resources: Vec<Resource>,
    other_resources: Vec<Resource>,
)
    requires
        call_ensures(SocketConfig::resources, (&one,), one_resources),
        call_ensures(SocketConfig::resources, (&other,), other_resources),
    ensures
        (exists|resource: Resource| #[trigger]
            one_resources@.contains(resource) && other_resources@.contains(resource)) <==> (
        listen_address(one.mode) is Some && listen_address(one.mode) == listen_address(other.mode)
            && (listen_address(one.mode)->0 is SystemdFd || (one.mode is Tcp
            <==> other.mode is Tcp))),
{
    law_conflicts_are_found(one.mode, other.mode);
}

/// No source acknowledges; its deserializer and its own namespace are those of its
/// mode.
pub proof fn law_own_settings<'a>(
    socket: &'a SocketConfig,
    acknowledges: bool,
    decoding: &'a DeserializerConfig,
    namespace: LogNamespace,
)
    requires
        call_ensures(SocketConfig::can_acknowledge, (socket,), acknowledges),
        call_ensures(SocketConfig::decoding, (socket,), decoding),
        call_ensures(SocketConfig::log_namespace, (socket,), namespace),
    ensures
        !acknowledges,
        match socket.mode {
            Mode::Tcp(config) => *decoding == config.decoding,
            Mode::Udp(config) => *decoding == config.decoding,
            Mode::UnixDatagram(config) => *decoding == config.decoding,
            Mode::UnixStream(config) => *decoding == config.decoding,
        },
        namespace == LogNamespace::Vector <==> own_setting(socket.mode) == Some(true),
{
}

/// A configuration that is only given an address or a path listens there and is
/// otherwise default: messages of 100 KiB, thirty seconds for a shutdown, the bytes
/// of a frame as the message, and nothing else.
pub proof fn law_default_configurations(
    addr: SocketAddr,
    address: SocketListenAddr,
    path: String,
    basic: SocketConfig,
    wrapped: SocketConfig,
    tcp: TcpConfig,
    udp: UdpConfig,
    unix: UnixConfig,
)
    requires
        call_ensures(SocketConfig::make_basic_tcp_config, (addr,), basic),
        call_ensures(TcpConfig::from_address, (address,), tcp),
        call_ensures(SocketConfig::new_tcp, (tcp,), wrapped),
        call_ensures(UdpConfig::from_address, (address,), udp),
        call_ensures(UnixConfig::new, (path,), unix),
    ensures
        wrapped.mode == Mode::Tcp(tcp),
        address == SocketListenAddr::SocketAddr(addr) ==> basic.mode == Mode::Tcp(tcp),
        basic.mode is Tcp && basic.mode->Tcp_0.address == SocketListenAddr::SocketAddr(addr),
        tcp.address == address,
        tcp.max_length == Some(102_400usize),
        tcp.shutdown_timeout_secs == 30,
        tcp.keepalive is None,
        tcp.host_key is None,
        tcp.port_key is None,
        tcp.tls is None,
        tcp.receive_buffer_bytes is None,
        tcp.framing is None,
        tcp.decoding is Bytes,
        tcp.connection_limit is None,
        tcp.log_namespace is None,
        udp.address == address,
        udp.max_length == 102_400,
        udp.host_key is None,
        udp.port_key is None,
        udp.receive_buffer_bytes is None,
        udp.framing is MessageBased,
        udp.decoding is Bytes,
        udp.log_namespace is None,
        unix.path == path,
        unix.max_length == Some(102_400usize),
        unix.socket_file_mode is None,
        unix.host_key is None,
        unix.framing is None,
        unix.decoding is Bytes,
        unix.log_namespace is None,
{
}

/// The text of the address is the string under `address`, and nothing if there is
/// none.
pub proof fn law_address_text<'a>(value: &'a toml::Value, text: Option<&'a str>)
    requires
        call_ensures(address_text, (value,), text),
    ensures
        match text {
            Some(text) => toml_view(*value) is Table && says_text(
                toml_view(*value)->Table_0,
                "address"@,
                text@,
            ),
            None => !(toml_view(*value) is Table) || !has_text(
                toml_view(*value)->Table_0,
                "address"@,
            ),
        },
{
}

/// What is read is in the mode that the table names, and has in each setting what
/// the table says under the name of that setting.
pub proof fn law_read(
    value: toml::Value,
    address: Option<SocketListenAddr>,
    socket: SocketConfig,
)
    requires
        call_ensures(SocketConfig::from_value, (&value, address), Ok(socket)),
    ensures
        toml_view(value) is Table,
        ({
            let entries = toml_view(value)->Table_0;
            match socket.mode {
                Mode::Tcp(config) => {
                    &&& says_text(entries, "mode"@, "tcp"@)
                    &&& has_text(entries, "address"@)
                    &&& address == Some(config.address)
                    &&& match config.keepalive {
                        Some(settings) => says_table(entries, "keepalive"@, settings),
                        None => !entries.contains_key("keepalive"@),
                    }
                    &&& is_size_of(config.max_length, entries, "max_length"@)
                    &&& if entries.contains_key("shutdown_timeout_secs"@) {
                        says_number(
                            entries,
                            "shutdown_timeout_secs"@,
                            config.shutdown_timeout_secs as int,
                        )
                    } else {
                        config.shutdown_timeout_secs == 30
                    }
                    &&& is_text_of(config.host_key, entries, "host_key"@)
                    &&& is_text_of(config.port_key, entries, "port_key"@)
                    &&& match config.tls {
                        Some(tls) => says_table(entries, "tls"@, tls.tls_config) && is_text_of(
                            tls.client_metadata_key,
                            entries["tls"@]->Table_0,
                            "client_metadata_key"@,
                        ),
                        None => !entries.contains_key("tls"@),
                    }
                    &&& is_size_of(config.receive_buffer_bytes, entries, "receive_buffer_bytes"@)
                    &&& is_framing_of(config.framing, entries)
                    &&& is_decoding_of(config.decoding, entries)
                    &&& is_number_of(config.connection_limit, entries, "connection_limit"@)
                    &&& is_truth_of(config.log_namespace, entries, "log_namespace"@)
                },
                Mode::Udp(config) => {
                    &&& says_text(entries, "mode"@, "udp"@)
                    &&& has_text(entries, "address"@)
                    &&& address == Some(config.address)
                    &&& if entries.contains_key("max_length"@) {
                        says_number(entries, "max_length"@, config.max_length as int)
                    } else {
                        config.max_length == 102_400
                    }
                    &&& is_text_of(config.host_key, entries, "host_key"@)
                    &&& is_text_of(config.port_key, entries, "port_key"@)
                    &&& is_size_of(config.receive_buffer_bytes, entries, "receive_buffer_bytes"@)
                    &&& if entries.contains_key("framing"@) {
                        is_framing_of(Some(config.framing), entries)
                    } else {
                        config.framing is MessageBased
                    }
                    &&& is_decoding_of(config.decoding, entries)
                    &&& is_truth_of(config.log_namespace, entries, "log_namespace"@)
                },
                Mode::UnixDatagram(config) | Mode::UnixStream(config) => {
                    &&& if socket.mode is UnixDatagram {
                        says_text(entries, "mode"@, "unix_datagram"@)
                    } else {
                        says_text(entries, "mode"@, "unix_stream"@) || says_text(
                            entries,
                            "mode"@,
                            "unix"@,
                        )
                    }
                    &&& says_text(entries, "path"@, config.path@)
                    &&& is_number_of(config.socket_file_mode, entries, "socket_file_mode"@)
                    &&& is_size_of(config.max_length, entries, "max_length"@)
                    &&& is_text_of(config.host_key, entries, "host_key"@)
                    &&& is_framing_of(config.framing, entries)
                    &&& is_decoding_of(config.decoding, entries)
                    &&& is_truth_of(config.log_namespace, entries, "log_namespace"@)
                },
            }
        }),
{
    law_complaint(toml_view(value), address);
    let entries = toml_view(value)->Table_0;
    match socket.mode {
        Mode::Tcp(config) => law_tcp_settings(entries, address, config),
        Mode::Udp(config) => law_udp_settings(entries, address, config),
        Mode::UnixDatagram(config) => law_unix_settings(entries, address, socket.mode, config),
        Mode::UnixStream(config) => law_unix_settings(entries, address, socket.mode, config),
    }
}

/// A table of a known mode is read exactly if it has what the mode requires, and
/// every setting of the mode that it has is of its type and in range.
pub proof fn law_read_or_refused(
    value: toml::Value,
    address: Option<SocketListenAddr>,
    socket: core::result::Result<SocketConfig, ReadError>,
)
    requires
        call_ensures(SocketConfig::from_value, (&value, address), socket),
        toml_view(value) is Table,
    ensures
        ({
            let entries = toml_view(value)->Table_0;
            let common = may_be_number(entries, "max_length"@, usize::MAX as int) && may_be_text(
                entries,
                "host_key"@,
            ) && may_be_table(entries, "framing"@) && may_be_table(entries, "decoding"@)
                && may_be_truth(entries, "log_namespace"@);
            let network = common && has_text(entries, "address"@) && address is Some
                && may_be_text(entries, "port_key"@) && may_be_number(
                entries,
                "receive_buffer_bytes"@,
                usize::MAX as int,
            );
            &&& says_text(entries, "mode"@, "tcp"@) ==> (socket is Ok <==> (network
                && may_be_table(entries, "keepalive"@) && may_be_number(
                entries,
                "shutdown_timeout_secs"@,
                u64::MAX as int,
            ) && may_have_tls(entries) && may_be_number(
                entries,
                "connection_limit"@,
                u32::MAX as int,
            )))
            &&& says_text(entries, "mode"@, "udp"@) ==> (socket is Ok <==> network)
            &&& says_text(entries, "mode"@, "unix_datagram"@) || says_text(
                entries,
                "mode"@,
                "unix_stream"@,
            ) || says_text(entries, "mode"@, "unix"@) ==> (socket is Ok <==> (common && has_text(
                entries,
                "path"@,
            ) && may_be_number(entries, "socket_file_mode"@, u32::MAX as int)))
        }),
{
    let entries = toml_view(value)->Table_0;
    if says_text(entries, "mode"@, "tcp"@) {
        law_tcp_accepted(entries, address);
    }
    if says_text(entries, "mode"@, "udp"@) {
        law_udp_accepted(entries, address);
    }
    if says_text(entries, "mode"@, "unix_datagram"@) || says_text(
        entries,
        "mode"@,
        "unix_stream"@,
    ) || says_text(entries, "mode"@, "unix"@) {
        law_unix_accepted(entries, address);
    }
    super::laws::lemma_names_differ();
}

/// A refusal is for a reason that holds of the value.
pub proof fn law_refused_for_reason(
    value: toml::Value,
    address: Option<SocketListenAddr>,
    error: ReadError,
)
    requires
        call_ensures(SocketConfig::from_value, (&value, address), Err(error)),
    ensures
        error is NotATable <==> !(toml_view(value) is Table),
        toml_view(value) is Table ==> {
            let entries = toml_view(value)->Table_0;
            match error {
                ReadError::NotATable => false,
                ReadError::UnknownMode => has_text(entries, "mode"@) && !says_text(
                    entries,
                    "mode"@,
                    "tcp"@,
                ) && !says_text(entries, "mode"@, "udp"@) && !says_text(
                    entries,
                    "mode"@,
                    "unix_datagram"@,
                ) && !says_text(entries, "mode"@, "unix_stream"@) && !says_text(
                    entries,
                    "mode"@,
                    "unix"@,
                ),
                ReadError::Missing(Field::Mode) => !entries.contains_key("mode"@),
                ReadError::Missing(Field::Address) => !entries.contains_key("address"@),
                ReadError::Missing(Field::Path) => !entries.contains_key("path"@),
                ReadError::Missing(_) => false,
                ReadError::Invalid(field) => entries.contains_key(field_key(field)) && (!fits(
                    entries,
                    field,
                ) || (field is Address && address is None)),
            }
        },
{
    law_complaint(toml_view(value), address);
}

/// The fields that a table names for the host and the port are those in which the
/// output of the source has them.
pub proof fn law_read_and_announced<'a>(
    value: toml::Value,
    address: Option<SocketListenAddr>,
    socket: &'a SocketConfig,
    global: LogNamespace,
    schema: &'a LogSchema,
    outputs: Vec<Output<'a>>,
    name: String,
)
    requires
        call_ensures(SocketConfig::from_value, (&value, address), Ok(*socket)),
        call_ensures(SocketConfig::outputs, (socket, global, schema), outputs),
    ensures
        ({
            let entries = toml_view(value)->Table_0;
            let metadata = outputs@[0].schema_definition.source_metadata@;
            &&& says_text(entries, "host_key"@, name@) ==> goes_into(
                metadata[0],
                Some(name),
                schema.host_key@,
                Kind::Bytes,
            )
            &&& !entries.contains_key("host_key"@) ==> goes_into(
                metadata[0],
                None,
                schema.host_key@,
                Kind::Bytes,
            )
            &&& socket.mode is Tcp || socket.mode is Udp ==> {
                &&& says_text(entries, "port_key"@, name@) ==> goes_into(
                    metadata[1],
                    Some(name),
                    "port"@,
                    Kind::Integer,
                )
                &&& !entries.contains_key("port_key"@) ==> goes_into(
                    metadata[1],
                    None,
                    "port"@,
                    Kind::Integer,
                )
            }
        }),
{
    law_read(value, address, *socket);
    law_outputs(socket, global, schema, outputs);
}

/// The TLS table of a configuration is what is loaded for a source that is read
/// and built from it, and the setting for the namespace is the one that counts.
pub proof fn law_read_and_built<'a>(
    value: toml::Value,
    address: Option<SocketListenAddr>,
    socket: &'a SocketConfig,
    cx: SourceContext,
    plan: TcpPlan<'a>,
)
    requires
        call_ensures(SocketConfig::from_value, (&value, address), Ok(*socket)),
        call_ensures(SocketConfig::build, (socket, &cx), Ok(BuildStep::LoadTls(plan))),
    ensures
        ({
            let entries = toml_view(value)->Table_0;
            &&& match plan.tls_config {
                Some(settings) => says_table(entries, "tls"@, *settings),
                None => !entries.contains_key("tls"@),
            }
            &&& plan.log_namespace == LogNamespace::Vector <==> (says_truth(
                entries,
                "log_namespace"@,
                true,
            ) || (!entries.contains_key("log_namespace"@) && cx.schema_log_namespace == Some(
                true,
            )))
        }),
{
    law_read(value, address, *socket);
}

/// The example configuration is the same whether it is generated or read back from
/// its text, and is read as a TCP source at the address that is denoted, or refused
/// for its address if none is.
pub proof fn law_example(
    config: toml::Value,
    text: String,
    address: SocketListenAddr,
    socket: core::result::Result<SocketConfig, ReadError>,
    reread: core::result::Result<SocketConfig, ReadError>,
    nowhere: core::result::Result<SocketConfig, ReadError>,
)
    requires
        call_ensures(SocketConfig::generate_config, (), config),
        call_ensures(SocketConfig::generate_config_text, (), text),
        call_ensures(SocketConfig::from_value, (&config, Some(address)), socket),
        call_ensures(SocketConfig::reread_generated_config, (Some(address),), reread),
        call_ensures(SocketConfig::reread_generated_config, (None,), nowhere),
    ensures
        toml_view(config) is Table,
        says_text(toml_view(config)->Table_0, "address"@, "0.0.0.0:9000"@),
        text@ == "address = \"0.0.0.0:9000\"\nmode = \"tcp\"\n"@,
        socket is Ok,
        reread is Ok,
        reread->Ok_0.mode == socket->Ok_0.mode,
        socket->Ok_0.mode is Tcp,
        socket->Ok_0.mode->Tcp_0.address == address,
        socket->Ok_0.mode->Tcp_0.max_length is None,
        socket->Ok_0.mode->Tcp_0.tls is None,
        nowhere is Err && nowhere->Err_0 == ReadError::Invalid(Field::Address),
{
    law_generated_config_is_read(address);
}

} // verus!
