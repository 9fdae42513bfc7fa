//! What holds of the `socket` source as a whole.

use super::entries::{text_entry, Entries, Entry, Field, ReadError};
use super::generate::{generated_entries, lemma_written_text, written_lines};
use super::outputs::{configured_path, metadata_spec, output_spec};
use super::plan::{build_spec, BuildStep, TcpPlan};
use super::read::{config_error, mode_is, named_mode, ModeName};
use super::tcp::TcpConfig;
use super::udp::UdpConfig;
use super::unix::UnixConfig;
use super::{Mode, SocketConfig};
use crate::codecs::{
    DecodingConfig, DeserializerConfig, EffectiveFraming, Framing, FramingConfig,
    DEFAULT_MAX_LENGTH,
};
use crate::error::ComponentError;
use crate::namespace::{namespace_of, LogNamespace, SourceContext};
use crate::net::{Protocol, Resource, SocketAddr, SocketListenAddr};
use crate::schema::{Kind, LegacyKey, LogSchema, SourceMetadataView};
use crate::toml_value::{
    document_entries, document_text, is_plain_document, law_text_determines_lines, PlainLine,
    TomlView,
};
use vstd::prelude::*;
use vstd::std_specs::convert::FromSpec;

verus! {

/// A stream mode with both a framing and a maximum length.
pub open spec fn is_conflicting(mode: Mode) -> bool {
    match mode {
        Mode::Tcp(config) => config.framing is Some && config.max_length is Some,
        Mode::UnixStream(config) => config.framing is Some && config.max_length is Some,
        _ => false,
    }
}

/// The decoder of the source that a step builds.
pub open spec fn step_decoder<'a>(step: BuildStep<'a>) -> DecodingConfig<'a> {
    match step {
        BuildStep::LoadTls(plan) => plan.decoder,
        BuildStep::Udp(source) => source.decoder,
        BuildStep::UnixDatagram(source) => source.decoder,
        BuildStep::UnixStream(source) => source.decoder,
    }
}

/// The log namespace of the source that a step builds.
pub open spec fn step_namespace<'a>(step: BuildStep<'a>) -> LogNamespace {
    match step {
        BuildStep::LoadTls(plan) => plan.log_namespace,
        BuildStep::Udp(source) => source.log_namespace,
        BuildStep::UnixDatagram(source) => source.log_namespace,
        BuildStep::UnixStream(source) => source.log_namespace,
    }
}

/// The framing of the source that is built in `mode`, if one is.
pub open spec fn built_framing(mode: Mode, cx: SourceContext) -> Option<EffectiveFraming> {
    match build_spec(&mode, cx) {
        Ok(step) => Some(step_decoder(step).framing.effective()),
        Err(_) => None,
    }
}

/// A source is refused exactly if it reads a stream and has both a framing and a
/// maximum length, and the refusal says so. What the pipeline is like does not
/// matter.
pub proof fn law_refusal(mode: Mode, cx: SourceContext)
    ensures
        build_spec(&mode, cx) is Err <==> is_conflicting(mode),
        build_spec(&mode, cx) is Err ==> build_spec(&mode, cx)->Err_0
            == ComponentError::MaxLengthWithFraming,
{
}

/// A source is built in the mode that is configured, and from that
/// configuration; only TCP has TLS settings to load.
pub proof fn law_mode_is_kept(mode: Mode, cx: SourceContext)
    requires
        !is_conflicting(mode),
    ensures
        match (mode, build_spec(&mode, cx)->Ok_0) {
            (Mode::Tcp(config), BuildStep::LoadTls(plan)) => *plan.config == config,
            (Mode::Udp(config), BuildStep::Udp(source)) => *source.config == config,
            (Mode::UnixDatagram(config), BuildStep::UnixDatagram(source)) => *source.config
                == config,
            (Mode::UnixStream(config), BuildStep::UnixStream(source)) => *source.config == config,
            _ => false,
        },
{
}

/// Every source decodes with its configured deserializer, and its decoder is
/// always in the legacy namespace, whatever the namespace of the source.
pub proof fn law_decoder(mode: Mode, cx: SourceContext)
    requires
        !is_conflicting(mode),
    ensures
        *step_decoder(build_spec(&mode, cx)->Ok_0).decoding == mode.decoding_spec(),
        step_decoder(build_spec(&mode, cx)->Ok_0).log_namespace == LogNamespace::Legacy,
{
}

/// The configured framing of a mode, if it has one.
pub open spec fn configured_framing(mode: Mode) -> Option<FramingConfig> {
    match mode {
        Mode::Tcp(config) => config.framing,
        Mode::Udp(config) => Some(config.framing),
        Mode::UnixDatagram(config) => config.framing,
        Mode::UnixStream(config) => config.framing,
    }
}

/// A configured framing is the one that is used, in every mode. Without one,
/// datagrams are framed message by message, whatever their maximum length, and
/// streams by newlines if they have a maximum length and as their deserializer
/// says if they have none.
pub proof fn law_framing(mode: Mode, cx: SourceContext)
    requires
        !is_conflicting(mode),
    ensures
        match configured_framing(mode) {
            Some(framing) => step_decoder(build_spec(&mode, cx)->Ok_0).framing
                == Framing::Configured(&framing),
            None => step_decoder(build_spec(&mode, cx)->Ok_0).framing == match mode {
                Mode::Tcp(config) => match config.max_length {
                    Some(max_length) => Framing::NewlineDelimited { max_length },
                    None => Framing::StreamDefault(&config.decoding),
                },
                Mode::UnixStream(config) => match config.max_length {
                    Some(max_length) => Framing::NewlineDelimited { max_length },
                    None => Framing::StreamDefault(&config.decoding),
                },
                _ => Framing::MessageDefault,
            },
        },
{
}

/// A maximum length alone means newline-delimited frames of at most that length:
/// a stream source that has it gets the framing that it would get from such a
/// framing in its configuration.
pub proof fn law_max_length_is_newline_framing(
    tcp: TcpConfig,
    unix: UnixConfig,
    max_length: usize,
    cx: SourceContext,
)
    requires
        tcp.framing is None,
        tcp.max_length == Some(max_length),
        unix.framing is None,
        unix.max_length == Some(max_length),
    ensures
        ({
            let framing = Some(FramingConfig::NewlineDelimited { max_length: Some(max_length) });
            let tcp_framed = TcpConfig { framing, max_length: None, ..tcp };
            let unix_framed = UnixConfig { framing, max_length: None, ..unix };
            &&& built_framing(Mode::Tcp(tcp), cx) == built_framing(Mode::Tcp(tcp_framed), cx)
            &&& built_framing(Mode::UnixStream(unix), cx) == built_framing(
                Mode::UnixStream(unix_framed),
                cx,
            )
            &&& built_framing(Mode::Tcp(tcp), cx) == Some(EffectiveFraming::Given(framing->0))
            &&& built_framing(Mode::UnixStream(unix), cx) == Some(
                EffectiveFraming::Given(framing->0),
            )
        }),
{
}

/// Without a framing in its configuration, a datagram source on a Unix domain
/// socket gets the framing that it would get from one message by message, and so
/// does a UDP source that has just that.
pub proof fn law_datagrams_are_message_based(unix: UnixConfig, udp: UdpConfig, cx: SourceContext)
    requires
        unix.framing is None,
        udp.framing is MessageBased,
    ensures
        ({
            let framed = UnixConfig { framing: Some(FramingConfig::MessageBased), ..unix };
            &&& built_framing(Mode::UnixDatagram(unix), cx) == built_framing(
                Mode::UnixDatagram(framed),
                cx,
            )
            &&& built_framing(Mode::UnixDatagram(unix), cx) == built_framing(Mode::Udp(udp), cx)
            &&& built_framing(Mode::Udp(udp), cx) == Some(
                EffectiveFraming::Given(FramingConfig::MessageBased),
            )
        }),
{
}

/// The two stream modes treat framing, maximum length and deserializer alike.
pub proof fn law_stream_modes_alike(
    tcp: TcpConfig,
    unix: UnixConfig,
    cx: SourceContext,
)
    requires
        tcp.framing == unix.framing,
        tcp.max_length == unix.max_length,
        tcp.decoding == unix.decoding,
        tcp.log_namespace == unix.log_namespace,
    ensures
        match (build_spec(&Mode::Tcp(tcp), cx), build_spec(&Mode::UnixStream(unix), cx)) {
            (Ok(a), Ok(b)) => step_decoder(a) == step_decoder(b) && step_namespace(a)
                == step_namespace(b),
            (Err(a), Err(b)) => a == b,
            _ => false,
        },
{
}

/// The setting of the source itself decides about the namespace of its events;
/// the pipeline counts only where the source says nothing.
pub proof fn law_namespace(mode: Mode, cx: SourceContext)
    requires
        !is_conflicting(mode),
    ensures
        step_namespace(build_spec(&mode, cx)->Ok_0) == match mode.log_namespace_setting() {
            Some(enabled) => namespace_of(Some(enabled)),
            None => namespace_of(cx.schema_log_namespace),
        },
{
}

/// The events of a source are in the namespace that its output announces, except
/// where the source says nothing and the pipeline uses log namespaces.
pub proof fn law_output_namespace(mode: Mode, cx: SourceContext, schema: LogSchema)
    requires
        !is_conflicting(mode),
    ensures
        step_namespace(build_spec(&mode, cx)->Ok_0) == output_spec(
            mode,
            schema,
        ).schema_definition.log_namespace <==> (mode.log_namespace_setting() is Some
            || cx.schema_log_namespace != Some(true)),
{
}

/// Every mode announces the host, as bytes under its name in the schema; the
/// network modes announce the port as well, as an integer, and no mode anything
/// else. A legacy path is there exactly if its key is configured, and is that one
/// field.
pub proof fn law_metadata(mode: Mode, schema: LogSchema)
    ensures
        metadata_spec(mode, schema)[0].vector_path == seq![schema.host_key@],
        metadata_spec(mode, schema).len() == (if mode is Tcp || mode is Udp {
            2int
        } else {
            1
        }),
        metadata_spec(mode, schema)[0].kind == Kind::Bytes,
        (mode is Tcp || mode is Udp) ==> metadata_spec(mode, schema)[1].vector_path
            == seq!["port"@] && metadata_spec(mode, schema)[1].kind == Kind::Integer,
        forall|i: int|
            0 <= i < metadata_spec(mode, schema).len() ==> (#[trigger] metadata_spec(
                mode,
                schema,
            )[i]).source_name == "socket"@,
        match mode {
            Mode::Tcp(config) => metadata_spec(mode, schema)[0].legacy_path == configured_path(
                config.host_key,
            ) && metadata_spec(mode, schema)[1].legacy_path == configured_path(config.port_key),
            Mode::Udp(config) => metadata_spec(mode, schema)[0].legacy_path == configured_path(
                config.host_key,
            ) && metadata_spec(mode, schema)[1].legacy_path == configured_path(config.port_key),
            Mode::UnixDatagram(config) => metadata_spec(mode, schema)[0].legacy_path
                == configured_path(config.host_key),
            Mode::UnixStream(config) => metadata_spec(mode, schema)[0].legacy_path
                == configured_path(config.host_key),
        },
{
}

/// Two listeners use the same resource exactly if they listen at the same place,
/// and with the same protocol unless that place is a file descriptor.
pub proof fn law_resources_distinct(
    one: SocketListenAddr,
    one_protocol: Protocol,
    other: SocketListenAddr,
    other_protocol: Protocol,
)
    ensures
        one.resource(one_protocol) == other.resource(other_protocol) <==> (one == other && (
        one_protocol == other_protocol || one is SystemdFd)),
{
}

/// The basic TCP configuration can be built, with frames that end at a newline,
/// without TLS, and uses exactly the TCP port of its address.
pub proof fn law_basic_tcp(addr: SocketAddr, cx: SourceContext)
    ensures
        ({
            let mode = Mode::Tcp(TcpConfig::basic(SocketListenAddr::SocketAddr(addr)));
            &&& mode.resources_spec() == seq![Resource::Port(addr, Protocol::Tcp)]
            &&& match build_spec(&mode, cx) {
                Ok(BuildStep::LoadTls(plan)) => plan.tls_config is None && plan.decoder.framing
                    == Framing::NewlineDelimited { max_length: DEFAULT_MAX_LENGTH },
                _ => false,
            }
        }),
{
}

/// By default streams are cut into frames at newlines, and datagrams are kept
/// whole, newlines and all.
pub proof fn law_default_framing(address: SocketListenAddr, path: String, cx: SourceContext)
    ensures
        match build_spec(&Mode::Tcp(TcpConfig::basic(address)), cx) {
            Ok(step) => step_decoder(step).framing == (Framing::NewlineDelimited {
                max_length: DEFAULT_MAX_LENGTH,
            }),
            Err(_) => false,
        },
        match build_spec(&Mode::UnixStream(UnixConfig::basic(path)), cx) {
            Ok(step) => step_decoder(step).framing == (Framing::NewlineDelimited {
                max_length: DEFAULT_MAX_LENGTH,
            }),
            Err(_) => false,
        },
        match build_spec(&Mode::Udp(UdpConfig::basic(address)), cx) {
            Ok(step) => step_decoder(step).framing == Framing::Configured(
                &FramingConfig::MessageBased,
            ),
            Err(_) => false,
        },
        match build_spec(&Mode::UnixDatagram(UnixConfig::basic(path)), cx) {
            Ok(step) => step_decoder(step).framing == Framing::MessageDefault,
            Err(_) => false,
        },
{
}

/// The TLS settings of a TCP source are always loaded, and for the server side of
/// connections: there are settings to load exactly if the configuration has TLS,
/// and they are the configured ones, whether or not a field for client metadata is
/// named. That field is the configured one.
pub proof fn law_tls_is_loaded(config: TcpConfig, cx: SourceContext)
    requires
        config.framing is None || config.max_length is None,
    ensures
        match build_spec(&Mode::Tcp(config), cx) {
            Ok(BuildStep::LoadTls(plan)) => {
                &&& plan.tls_config is Some <==> config.tls is Some
                &&& config.tls is Some ==> *plan.tls_config->0 == config.tls->0.tls_config
                &&& plan.tls_for_server
                &&& plan.tls_client_metadata_key is Some <==> (config.tls is Some
                    && config.tls->0.client_metadata_key is Some)
                &&& plan.tls_client_metadata_key is Some ==> *plan.tls_client_metadata_key->0
                    == config.tls->0.client_metadata_key->0
            },
            _ => false,
        },
{
}

/// Which TLS settings are loaded does not depend on the field for client metadata,
/// nor on anything else in the configuration.
pub proof fn law_tls_is_its_own(one: TcpConfig, other: TcpConfig, cx: SourceContext)
    requires
        one.framing is None || one.max_length is None,
        other.framing is None || other.max_length is None,
        one.tls is Some <==> other.tls is Some,
        one.tls is Some ==> one.tls->0.tls_config == other.tls->0.tls_config,
    ensures
        match (build_spec(&Mode::Tcp(one), cx), build_spec(&Mode::Tcp(other), cx)) {
            (Ok(BuildStep::LoadTls(a)), Ok(BuildStep::LoadTls(b))) => a.tls_config == b.tls_config,
            _ => false,
        },
{
}

/// The TCP source that runs has the configured address, keepalive settings,
/// timeout, buffer, limit and field for client metadata, and the TLS settings that
/// were loaded; it does not acknowledge. Its decoder is made from what is
/// configured.
pub proof fn law_tcp_source_runs_as_configured<T>(config: TcpConfig, cx: SourceContext, tls: T)
    requires
        config.framing is None || config.max_length is None,
    ensures
        match build_spec(&Mode::Tcp(config), cx) {
            Ok(BuildStep::LoadTls(plan)) => {
                let source = plan.with_tls(tls);
                &&& *source.config == config
                &&& source.tls == tls
                &&& source.address == config.address
                &&& source.keepalive is Some <==> config.keepalive is Some
                &&& config.keepalive is Some ==> *source.keepalive->0 == config.keepalive->0
                &&& source.shutdown_timeout_secs == config.shutdown_timeout_secs
                &&& source.tls_client_metadata_key is Some <==> (config.tls is Some
                    && config.tls->0.client_metadata_key is Some)
                &&& source.tls_client_metadata_key is Some ==> *source.tls_client_metadata_key->0
                    == config.tls->0.client_metadata_key->0
                &&& source.receive_buffer_bytes == config.receive_buffer_bytes
                &&& source.connection_limit == config.connection_limit
                &&& !source.acknowledgements
                &&& *source.decoder.decoding == config.decoding
                &&& source.decoder.log_namespace == LogNamespace::Legacy
                &&& match (config.framing, config.max_length) {
                    (Some(framing), _) => source.decoder.framing == Framing::Configured(&framing),
                    (None, Some(max_length)) => source.decoder.framing
                        == Framing::NewlineDelimited { max_length },
                    (None, None) => source.decoder.framing == Framing::StreamDefault(
                        &config.decoding,
                    ),
                }
            },
            _ => false,
        },
{
}

/// The TCP source that runs keeps the metadata of its events apart exactly if its
/// own setting says so, or says nothing and the pipeline does.
pub proof fn law_tcp_source_namespace<T>(config: TcpConfig, cx: SourceContext, tls: T)
    requires
        config.framing is None || config.max_length is None,
    ensures
        match build_spec(&Mode::Tcp(config), cx) {
            Ok(BuildStep::LoadTls(plan)) => plan.with_tls(tls).log_namespace
                == LogNamespace::Vector <==> (config.log_namespace == Some(true) || (
            config.log_namespace is None && cx.schema_log_namespace == Some(true))),
            _ => false,
        },
{
}

/// Completing a plan changes nothing that the plan has decided: sources of one plan
/// differ in their TLS settings only.
pub proof fn law_completion_keeps_the_plan<'a, S, T>(plan: TcpPlan<'a>, one: S, other: T)
    ensures
        plan.with_tls(one).config == plan.config,
        plan.with_tls(one).decoder == plan.decoder,
        plan.with_tls(one).log_namespace == plan.log_namespace,
        plan.with_tls(one).tls_client_metadata_key == plan.tls_client_metadata_key,
        plan.with_tls(one).tls == one,
        plan.with_tls(other).tls == other,
        plan.with_tls(one).address == plan.config.address,
        plan.with_tls(one).address == plan.with_tls(other).address,
        plan.with_tls(one).keepalive == plan.with_tls(other).keepalive,
        plan.with_tls(one).log_namespace == plan.with_tls(other).log_namespace,
        plan.with_tls(one).shutdown_timeout_secs == plan.with_tls(other).shutdown_timeout_secs,
        plan.with_tls(one).receive_buffer_bytes == plan.with_tls(other).receive_buffer_bytes,
        plan.with_tls(one).connection_limit == plan.with_tls(other).connection_limit,
        plan.with_tls(one).acknowledgements == plan.with_tls(other).acknowledgements,
{
}

/// A UDP source is always built, from its configuration, with the configured
/// framing and deserializer.
pub proof fn law_udp_source_runs_as_configured(config: UdpConfig, cx: SourceContext)
    ensures
        match build_spec(&Mode::Udp(config), cx) {
            Ok(BuildStep::Udp(source)) => {
                &&& *source.config == config
                &&& source.decoder.framing == Framing::Configured(&config.framing)
                &&& *source.decoder.decoding == config.decoding
                &&& source.decoder.log_namespace == LogNamespace::Legacy
            },
            _ => false,
        },
{
}

/// A datagram source on a Unix domain socket is always built, whatever its maximum
/// length, and a stream source unless it has a maximum length beside a framing;
/// both from their configuration, with the configured deserializer.
pub proof fn law_unix_source_runs_as_configured(config: UnixConfig, cx: SourceContext)
    ensures
        match build_spec(&Mode::UnixDatagram(config), cx) {
            Ok(BuildStep::UnixDatagram(source)) => {
                &&& *source.config == config
                &&& *source.decoder.decoding == config.decoding
                &&& source.decoder.log_namespace == LogNamespace::Legacy
                &&& match config.framing {
                    Some(framing) => source.decoder.framing == Framing::Configured(&framing),
                    None => source.decoder.framing is MessageDefault,
                }
            },
            _ => false,
        },
        match build_spec(&Mode::UnixStream(config), cx) {
            Ok(BuildStep::UnixStream(source)) => {
                &&& *source.config == config
                &&& *source.decoder.decoding == config.decoding
                &&& source.decoder.log_namespace == LogNamespace::Legacy
                &&& match (config.framing, config.max_length) {
                    (Some(framing), None) => source.decoder.framing == Framing::Configured(
                        &framing,
                    ),
                    (None, Some(max_length)) => source.decoder.framing
                        == Framing::NewlineDelimited { max_length },
                    (None, None) => source.decoder.framing == Framing::StreamDefault(
                        &config.decoding,
                    ),
                    (Some(_), Some(_)) => false,
                }
            },
            Ok(_) => false,
            Err(_) => config.framing is Some && config.max_length is Some,
        },
{
}

/// What a mode itself says of the namespace of its events.
pub open spec fn own_setting(mode: Mode) -> Option<bool> {
    match mode {
        Mode::Tcp(config) => config.log_namespace,
        Mode::Udp(config) => config.log_namespace,
        Mode::UnixDatagram(config) => config.log_namespace,
        Mode::UnixStream(config) => config.log_namespace,
    }
}

/// In every mode, a source keeps the metadata of its events apart exactly if its
/// own setting says so, or says nothing and the pipeline does.
pub proof fn law_events_are_namespaced_as_set(mode: Mode, cx: SourceContext)
    requires
        build_spec(&mode, cx) is Ok,
    ensures
        step_namespace(build_spec(&mode, cx)->Ok_0) == LogNamespace::Vector <==> (own_setting(mode)
            == Some(true) || (own_setting(mode) is None && cx.schema_log_namespace == Some(true))),
        namespace_of(mode.log_namespace_setting()) == LogNamespace::Vector <==> own_setting(mode)
            == Some(true),
{
}

/// A refusal tells the user that the maximum length goes on the framing.
pub proof fn law_refusal_says_why(mode: Mode, cx: SourceContext)
    requires
        build_spec(&mode, cx) is Err,
    ensures
        build_spec(&mode, cx)->Err_0.text()
            == "Using `max_length` is deprecated and does not have any effect when framing is provided. Configure `max_length` on the framing config instead."@,
{
}

/// The output of a source, in every mode: the definition starts from the configured
/// deserializer, has the metadata that every source adds, and is for the namespace
/// that the source asks for, legacy unless its setting is on.
pub proof fn law_output(mode: Mode, schema: LogSchema)
    ensures
        output_spec(mode, schema).schema_definition.standard_source_metadata,
        output_spec(mode, schema).schema_definition.log_namespace == LogNamespace::Vector
            <==> own_setting(mode) == Some(true),
        output_spec(mode, schema).schema_definition.source_metadata == metadata_spec(mode, schema),
        output_spec(mode, schema).decoding == output_spec(mode, schema).schema_definition.decoding,
        match mode {
            Mode::Tcp(config) => output_spec(mode, schema).decoding == config.decoding,
            Mode::Udp(config) => output_spec(mode, schema).decoding == config.decoding,
            Mode::UnixDatagram(config) => output_spec(mode, schema).decoding == config.decoding,
            Mode::UnixStream(config) => output_spec(mode, schema).decoding == config.decoding,
        },
{
}

/// A piece of metadata that the source `socket` announces for a field that the
/// configuration may name: `name` is that field. A value that is already there is
/// kept, and the metadata has no meaning of its own.
pub open spec fn announces(
    metadata: SourceMetadataView,
    name: Option<String>,
    vector_name: Seq<char>,
    kind: Kind,
) -> bool {
    &&& metadata.source_name == "socket"@
    &&& metadata.legacy_path is Some <==> name is Some
    &&& name is Some ==> metadata.legacy_path->0 == LegacyKey::InsertIfEmpty(seq![name->0@])
    &&& metadata.vector_path == seq![vector_name]
    &&& metadata.kind == kind
    &&& metadata.meaning is None
}

/// The metadata of every mode, piece by piece: the host in the configured field,
/// and for the network modes then the port in its own; for a socket file nothing
/// but the host.
pub proof fn law_announced_metadata(mode: Mode, schema: LogSchema)
    ensures
        match mode {
            Mode::Tcp(config) => {
                &&& metadata_spec(mode, schema).len() == 2
                &&& announces(
                    metadata_spec(mode, schema)[0],
                    config.host_key,
                    schema.host_key@,
                    Kind::Bytes,
                )
                &&& announces(
                    metadata_spec(mode, schema)[1],
                    config.port_key,
                    "port"@,
                    Kind::Integer,
                )
            },
            Mode::Udp(config) => {
                &&& metadata_spec(mode, schema).len() == 2
                &&& announces(
                    metadata_spec(mode, schema)[0],
                    config.host_key,
                    schema.host_key@,
                    Kind::Bytes,
                )
                &&& announces(
                    metadata_spec(mode, schema)[1],
                    config.port_key,
                    "port"@,
                    Kind::Integer,
                )
            },
            Mode::UnixDatagram(config) => metadata_spec(mode, schema).len() == 1 && announces(
                metadata_spec(mode, schema)[0],
                config.host_key,
                schema.host_key@,
                Kind::Bytes,
            ),
            Mode::UnixStream(config) => metadata_spec(mode, schema).len() == 1 && announces(
                metadata_spec(mode, schema)[0],
                config.host_key,
                schema.host_key@,
                Kind::Bytes,
            ),
        },
{
}

/// Modes with the same fields for host and port announce the same metadata.
pub proof fn law_modes_announce_alike(
    tcp: TcpConfig,
    udp: UdpConfig,
    unix: UnixConfig,
    schema: LogSchema,
)
    requires
        tcp.host_key == udp.host_key,
        tcp.port_key == udp.port_key,
        tcp.host_key == unix.host_key,
    ensures
        metadata_spec(Mode::Tcp(tcp), schema) == metadata_spec(Mode::Udp(udp), schema),
        metadata_spec(Mode::UnixDatagram(unix), schema) == metadata_spec(
            Mode::UnixStream(unix),
            schema,
        ),
        metadata_spec(Mode::UnixStream(unix), schema) == seq![
            metadata_spec(Mode::Tcp(tcp), schema)[0],
        ],
{
}

/// A network source uses exactly one thing: the port of its address with the
/// protocol of its mode, be it IPv4 or IPv6, or else its file descriptor. A socket
/// file uses nothing.
pub proof fn law_resources(tcp: TcpConfig, udp: UdpConfig, unix: UnixConfig)
    ensures
        Mode::Tcp(tcp).resources_spec().len() == 1,
        Mode::Udp(udp).resources_spec().len() == 1,
        match tcp.address {
            SocketListenAddr::SocketAddr(addr) => Mode::Tcp(tcp).resources_spec()[0]
                == Resource::Port(addr, Protocol::Tcp),
            SocketListenAddr::SystemdFd(offset) => Mode::Tcp(tcp).resources_spec()[0]
                == Resource::SystemFdOffset(offset),
        },
        match udp.address {
            SocketListenAddr::SocketAddr(addr) => Mode::Udp(udp).resources_spec()[0]
                == Resource::Port(addr, Protocol::Udp),
            SocketListenAddr::SystemdFd(offset) => Mode::Udp(udp).resources_spec()[0]
                == Resource::SystemFdOffset(offset),
        },
        Mode::UnixDatagram(unix).resources_spec().len() == 0,
        Mode::UnixStream(unix).resources_spec().len() == 0,
{
}

/// Where a network mode listens.
pub open spec fn listen_address(mode: Mode) -> Option<SocketListenAddr> {
    match mode {
        Mode::Tcp(config) => Some(config.address),
        Mode::Udp(config) => Some(config.address),
        _ => None,
    }
}

/// Two sources are found to conflict exactly if they listen at the same address,
/// with the same protocol unless that is a file descriptor.
pub proof fn law_conflicts_are_found(one: Mode, other: Mode)
    ensures
        (exists|resource: Resource| #[trigger]
            one.resources_spec().contains(resource) && other.resources_spec().contains(resource))
            <==> (listen_address(one) is Some && listen_address(one) == listen_address(other) && (
        listen_address(one)->0 is SystemdFd || (one is Tcp <==> other is Tcp))),
{
    if listen_address(one) is Some && listen_address(one) == listen_address(other) && (
    listen_address(one)->0 is SystemdFd || (one is Tcp <==> other is Tcp)) {
        let resource = one.resources_spec()[0];
        assert(one.resources_spec().contains(resource));
        assert(other.resources_spec()[0] == resource);
        assert(other.resources_spec().contains(resource));
    }
}

/// The basic configurations listen where they are told, leave every optional
/// setting but the maximum length out, allow messages of 100 KiB, take the bytes of
/// a frame as the message, and wait thirty seconds for a shutdown.
pub proof fn law_basic_configurations(address: SocketListenAddr, path: String)
    ensures
        ({
            let tcp = TcpConfig::basic(address);
            &&& tcp.address == address
            &&& tcp.max_length == Some(102_400usize)
            &&& tcp.shutdown_timeout_secs == 30
            &&& tcp.keepalive is None
            &&& tcp.host_key is None
            &&& tcp.port_key is None
            &&& tcp.tls is None
            &&& tcp.receive_buffer_bytes is None
            &&& tcp.framing is None
            &&& tcp.decoding is Bytes
            &&& tcp.connection_limit is None
            &&& tcp.log_namespace is None
        }),
        ({
            let udp = UdpConfig::basic(address);
            &&& udp.address == address
            &&& udp.max_length == 100 * 1024
            &&& udp.host_key is None
            &&& udp.port_key is None
            &&& udp.receive_buffer_bytes is None
            &&& udp.framing is MessageBased
            &&& udp.decoding is Bytes
            &&& udp.log_namespace is None
        }),
        ({
            let unix = UnixConfig::basic(path);
            &&& unix.path == path
            &&& unix.max_length == Some(102_400usize)
            &&& unix.socket_file_mode is None
            &&& unix.host_key is None
            &&& unix.framing is None
            &&& unix.decoding is Bytes
            &&& unix.log_namespace is None
        }),
{
}

/// A configuration of a mode becomes a source in that mode, unchanged.
pub proof fn law_configuration_is_wrapped(tcp: TcpConfig, udp: UdpConfig)
    ensures
        <SocketConfig as FromSpec<TcpConfig>>::from_spec(tcp).mode == Mode::Tcp(tcp),
        <SocketConfig as FromSpec<UdpConfig>>::from_spec(udp).mode == Mode::Udp(udp),
{
}

/// A framing that is used comes down to what it was chosen as: a configured one to
/// itself, and a maximum length to newline-delimited frames of that length.
pub proof fn law_effective_framing(
    framing: FramingConfig,
    decoding: DeserializerConfig,
    max_length: usize,
)
    ensures
        Framing::Configured(&framing).effective() == EffectiveFraming::Given(framing),
        (Framing::NewlineDelimited { max_length }).effective() == EffectiveFraming::Given(
            FramingConfig::NewlineDelimited { max_length: Some(max_length) },
        ),
        Framing::StreamDefault(&decoding).effective() == EffectiveFraming::StreamDefault(decoding),
        Framing::MessageDefault.effective() == EffectiveFraming::Given(FramingConfig::MessageBased),
{
}

/// The example configuration is one that can be read: it is a TCP source at the
/// address that `0.0.0.0:9000` denotes, with nothing else configured.
pub proof fn law_generated_config_is_read(address: SocketListenAddr)
    ensures
        text_entry(generated_entries(), "address"@) == Entry::Present("0.0.0.0:9000"@),
        config_error(TomlView::Table(generated_entries()), Some(address)) is None,
        config_error(TomlView::Table(generated_entries()), None) == Some(
            ReadError::Invalid(Field::Address),
        ),
        forall|mode: Mode| #[trigger]
            mode_is(mode, generated_entries(), Some(address)) ==> mode == Mode::Tcp(
                TcpConfig { max_length: None, ..TcpConfig::basic(address) },
            ),
{
    lemma_keys_differ();
}

/// The text that is written of the example configuration is one that can be read:
/// whatever plain lines it is taken for, they are a TCP source at the address that
/// `0.0.0.0:9000` denotes, with nothing else configured.
pub proof fn law_generated_text_is_read(lines: Seq<PlainLine>, address: SocketListenAddr)
    requires
        is_plain_document(lines),
        document_text(lines) == "address = \"0.0.0.0:9000\"\nmode = \"tcp\"\n"@,
    ensures
        document_entries(lines) == generated_entries(),
        text_entry(document_entries(lines), "address"@) == Entry::Present("0.0.0.0:9000"@),
        config_error(TomlView::Table(document_entries(lines)), Some(address)) is None,
        forall|mode: Mode| #[trigger]
            mode_is(mode, document_entries(lines), Some(address)) ==> mode == Mode::Tcp(
                TcpConfig { max_length: None, ..TcpConfig::basic(address) },
            ),
{
    lemma_written_text();
    law_text_determines_lines(lines, written_lines());
    law_generated_config_is_read(address);
}

/// The old name of the stream mode of Unix domain sockets means the same as the
/// new one.
pub proof fn law_old_unix_name(entries: Entries, address: Option<SocketListenAddr>, mode: Mode)
    ensures
        ({
            let old_name = entries.insert("mode"@, TomlView::String("unix"@));
            let new_name = entries.insert("mode"@, TomlView::String("unix_stream"@));
            &&& config_error(TomlView::Table(old_name), address) == config_error(
                TomlView::Table(new_name),
                address,
            )
            &&& mode_is(mode, old_name, address) == mode_is(mode, new_name, address)
        }),
{
    lemma_keys_differ();
    lemma_names_differ();
}

/// The key of the mode and that of the address are no other keys.
proof fn lemma_keys_differ()
    ensures
        "mode"@ != "address"@,
        "mode"@ != "path"@,
        "mode"@ != "socket_file_mode"@,
        "mode"@ != "keepalive"@,
        "mode"@ != "max_length"@,
        "mode"@ != "shutdown_timeout_secs"@,
        "mode"@ != "host_key"@,
        "mode"@ != "port_key"@,
        "mode"@ != "tls"@,
        "mode"@ != "receive_buffer_bytes"@,
        "mode"@ != "framing"@,
        "mode"@ != "decoding"@,
        "mode"@ != "connection_limit"@,
        "mode"@ != "log_namespace"@,
        "address"@ != "path"@,
        "address"@ != "socket_file_mode"@,
        "address"@ != "keepalive"@,
        "address"@ != "max_length"@,
        "address"@ != "shutdown_timeout_secs"@,
        "address"@ != "host_key"@,
        "address"@ != "port_key"@,
        "address"@ != "tls"@,
        "address"@ != "receive_buffer_bytes"@,
        "address"@ != "framing"@,
        "address"@ != "decoding"@,
        "address"@ != "connection_limit"@,
        "address"@ != "log_namespace"@,
{
    reveal_strlit("mode");
    assert("mode"@.len() == 4);
    reveal_strlit("address");
    assert("address"@.len() == 7);
    reveal_strlit("path");
    assert("path"@.len() == 4);
    reveal_strlit("socket_file_mode");
    assert("socket_file_mode"@.len() == 16);
    reveal_strlit("keepalive");
    assert("keepalive"@.len() == 9);
    reveal_strlit("max_length");
    assert("max_length"@.len() == 10);
    reveal_strlit("shutdown_timeout_secs");
    assert("shutdown_timeout_secs"@.len() == 21);
    reveal_strlit("host_key");
    assert("host_key"@.len() == 8);
    reveal_strlit("port_key");
    assert("port_key"@.len() == 8);
    reveal_strlit("tls");
    assert("tls"@.len() == 3);
    reveal_strlit("receive_buffer_bytes");
    assert("receive_buffer_bytes"@.len() == 20);
    reveal_strlit("framing");
    assert("framing"@.len() == 7);
    reveal_strlit("decoding");
    assert("decoding"@.len() == 8);
    reveal_strlit("connection_limit");
    assert("connection_limit"@.len() == 16);
    reveal_strlit("log_namespace");
    assert("log_namespace"@.len() == 13);
    assert("mode"@[0] != "path"@[0]);
    assert("address"@[0] != "framing"@[0]);
}

/// The names of the modes differ.
pub(crate) proof fn lemma_names_differ()
    ensures
        "tcp"@ != "udp"@,
        "tcp"@ != "unix_datagram"@,
        "tcp"@ != "unix_stream"@,
        "tcp"@ != "unix"@,
        "udp"@ != "unix_datagram"@,
        "udp"@ != "unix_stream"@,
        "udp"@ != "unix"@,
        "unix_datagram"@ != "unix_stream"@,
        "unix_datagram"@ != "unix"@,
        "unix_stream"@ != "unix"@,
{
    reveal_strlit("tcp");
    assert("tcp"@.len() == 3);
    reveal_strlit("udp");
    assert("udp"@.len() == 3);
    reveal_strlit("unix_datagram");
    assert("unix_datagram"@.len() == 13);
    reveal_strlit("unix_stream");
    assert("unix_stream"@.len() == 11);
    reveal_strlit("unix");
    assert("unix"@.len() == 4);
    assert("tcp"@[0] != "udp"@[0]);
}

/// Each mode has the name that is its own in snake case; that of the stream mode
/// of Unix domain sockets may be cut short; and no other name is known.
pub proof fn law_mode_names(name: Seq<char>)
    ensures
        named_mode(name) == Some(ModeName::Tcp) <==> name == "tcp"@,
        named_mode(name) == Some(ModeName::Udp) <==> name == "udp"@,
        named_mode(name) == Some(ModeName::UnixDatagram) <==> name == "unix_datagram"@,
        named_mode(name) == Some(ModeName::UnixStream) <==> (name == "unix_stream"@ || name
            == "unix"@),
{
    lemma_names_differ();
}

/// A table without a known mode is refused, whatever else it holds.
pub proof fn law_mode_is_required(entries: Entries, address: Option<SocketListenAddr>)
    requires
        match text_entry(entries, "mode"@) {
            Entry::Present(name) => named_mode(name) is None,
            _ => true,
        },
    ensures
        config_error(TomlView::Table(entries), address) is Some,
{
}

/// The keys that some mode knows.
pub open spec fn is_known_key(key: Seq<char>) -> bool {
    ||| key == "mode"@
    ||| key == "address"@
    ||| key == "path"@
    ||| key == "socket_file_mode"@
    ||| key == "keepalive"@
    ||| key == "max_length"@
    ||| key == "shutdown_timeout_secs"@
    ||| key == "host_key"@
    ||| key == "port_key"@
    ||| key == "tls"@
    ||| key == "receive_buffer_bytes"@
    ||| key == "framing"@
    ||| key == "decoding"@
    ||| key == "connection_limit"@
    ||| key == "log_namespace"@
}

/// A configuration that was read is refused when it is built exactly if it is one
/// of a stream mode and has entries for both the framing and the maximum length.
pub proof fn law_read_and_refused(
    entries: Entries,
    address: Option<SocketListenAddr>,
    mode: Mode,
    cx: SourceContext,
)
    requires
        config_error(TomlView::Table(entries), address) is None,
        mode_is(mode, entries, address),
    ensures
        build_spec(&mode, cx) is Err <==> ((mode is Tcp || mode is UnixStream)
            && entries.contains_key("framing"@) && entries.contains_key("max_length"@)),
{
}

/// Entries that no mode knows change nothing: they are ignored rather than
/// refused, by choice of this reader.
pub proof fn law_unknown_entries(
    entries: Entries,
    key: Seq<char>,
    value: TomlView,
    address: Option<SocketListenAddr>,
    mode: Mode,
)
    requires
        !is_known_key(key),
    ensures
        config_error(TomlView::Table(entries.insert(key, value)), address) == config_error(
            TomlView::Table(entries),
            address,
        ),
        mode_is(mode, entries.insert(key, value), address) == mode_is(mode, entries, address),
{
}

/// The Unix domain socket modes need no listen address.
pub proof fn law_unix_needs_no_address(
    entries: Entries,
    one: Option<SocketListenAddr>,
    other: Option<SocketListenAddr>,
    name: Seq<char>,
)
    requires
        text_entry(entries, "mode"@) == Entry::Present(name),
        named_mode(name) == Some(ModeName::UnixDatagram) || named_mode(name) == Some(
            ModeName::UnixStream,
        ),
    ensures
        config_error(TomlView::Table(entries), one) == config_error(
            TomlView::Table(entries),
            other,
        ),
{
}

} // verus!
