//! What reading a configuration gives, entry by entry, and what becomes of the
//! entries once the source is built.

use super::entries::{
    number_entry, table_entry, text_entry, truth_entry, Entries, Entry, Field, ReadError,
};
use super::laws::{lemma_names_differ, step_namespace};
use super::outputs::metadata_spec;
use super::plan::{build_spec, BuildStep};
use super::read::{config_error, mode_is};
use super::tcp::TcpConfig;
use super::udp::UdpConfig;
use super::unix::UnixConfig;
use super::Mode;
use crate::codecs::{DeserializerConfig, FramingConfig};
use crate::namespace::{LogNamespace, SourceContext};
use crate::net::{Protocol, Resource, SocketListenAddr};
use crate::schema::{LegacyKey, LogSchema};
use crate::toml_value::{toml_view, TomlView};
use vstd::prelude::*;

verus! {

/// The table says `text` under `key`.
pub open spec fn says_text(entries: Entries, key: Seq<char>, text: Seq<char>) -> bool {
    entries.contains_key(key) && entries[key] == TomlView::String(text)
}

/// The table says `number` under `key`.
pub open spec fn says_number(entries: Entries, key: Seq<char>, number: int) -> bool {
    entries.contains_key(key) && entries[key] is Integer && entries[key]->Integer_0 == number
}

/// The table says `truth` under `key`.
pub open spec fn says_truth(entries: Entries, key: Seq<char>, truth: bool) -> bool {
    entries.contains_key(key) && entries[key] == TomlView::Boolean(truth)
}

/// The table has the table `value` under `key`.
pub open spec fn says_table(entries: Entries, key: Seq<char>, value: toml::Value) -> bool {
    entries.contains_key(key) && entries[key] == toml_view(value) && entries[key] is Table
}

/// A text setting: what the table says under `key`, and nothing if it has no such
/// entry.
pub open spec fn is_text_of(setting: Option<String>, entries: Entries, key: Seq<char>) -> bool {
    match setting {
        Some(text) => says_text(entries, key, text@),
        None => !entries.contains_key(key),
    }
}

/// A size: what the table says under `key`, and nothing if it has no such entry.
pub open spec fn is_size_of(setting: Option<usize>, entries: Entries, key: Seq<char>) -> bool {
    match setting {
        Some(size) => says_number(entries, key, size as int),
        None => !entries.contains_key(key),
    }
}

/// A number: what the table says under `key`, and nothing if it has no such entry.
pub open spec fn is_number_of(setting: Option<u32>, entries: Entries, key: Seq<char>) -> bool {
    match setting {
        Some(number) => says_number(entries, key, number as int),
        None => !entries.contains_key(key),
    }
}

/// A truth value: what the table says under `key`, and nothing if it has no such
/// entry.
pub open spec fn is_truth_of(setting: Option<bool>, entries: Entries, key: Seq<char>) -> bool {
    match setting {
        Some(truth) => says_truth(entries, key, truth),
        None => !entries.contains_key(key),
    }
}

/// A framing: the table under `framing`, and nothing if there is no such entry.
pub open spec fn is_framing_of(setting: Option<FramingConfig>, entries: Entries) -> bool {
    match setting {
        Some(FramingConfig::Settings(settings)) => says_table(entries, "framing"@, settings),
        Some(_) => false,
        None => !entries.contains_key("framing"@),
    }
}

/// A deserializer: the table under `decoding`, and the one for bytes if there is
/// no such entry.
pub open spec fn is_decoding_of(setting: DeserializerConfig, entries: Entries) -> bool {
    match setting {
        DeserializerConfig::Settings(settings) => says_table(entries, "decoding"@, settings),
        DeserializerConfig::Bytes => !entries.contains_key("decoding"@),
    }
}

/// A text or nothing stands under `key`.
pub open spec fn may_be_text(entries: Entries, key: Seq<char>) -> bool {
    entries.contains_key(key) ==> entries[key] is String
}

/// A number from zero to `max` or nothing stands under `key`.
pub open spec fn may_be_number(entries: Entries, key: Seq<char>, max: int) -> bool {
    entries.contains_key(key) ==> entries[key] is Integer && 0 <= entries[key]->Integer_0 <= max
}

/// A truth value or nothing stands under `key`.
pub open spec fn may_be_truth(entries: Entries, key: Seq<char>) -> bool {
    entries.contains_key(key) ==> entries[key] is Boolean
}

/// A table or nothing stands under `key`.
pub open spec fn may_be_table(entries: Entries, key: Seq<char>) -> bool {
    entries.contains_key(key) ==> entries[key] is Table
}

/// TLS settings or nothing stand in the table.
pub open spec fn may_have_tls(entries: Entries) -> bool {
    entries.contains_key("tls"@) ==> entries["tls"@] is Table && may_be_text(
        entries["tls"@]->Table_0,
        "client_metadata_key"@,
    )
}

/// The table has a string under `key`.
pub open spec fn has_text(entries: Entries, key: Seq<char>) -> bool {
    entries.contains_key(key) && entries[key] is String
}

/// A single entry is there exactly if the table has its key, is valid exactly if
/// it is of the wanted type and in range, and holds what the table holds.
pub proof fn law_entry(entries: Entries, key: Seq<char>, max: int)
    ensures
        text_entry(entries, key) is Absent <==> !entries.contains_key(key),
        number_entry(entries, key, max) is Absent <==> !entries.contains_key(key),
        truth_entry(entries, key) is Absent <==> !entries.contains_key(key),
        table_entry(entries, key) is Absent <==> !entries.contains_key(key),
        forall|text: Seq<char>|
            text_entry(entries, key) == Entry::Present(text) <==> #[trigger] says_text(
                entries,
                key,
                text,
            ),
        forall|number: int|
            number_entry(entries, key, max) == Entry::Present(number) <==> #[trigger] says_number(
                entries,
                key,
                number,
            ) && 0 <= number <= max,
        truth_entry(entries, key) == Entry::Present(true) <==> says_truth(entries, key, true),
        truth_entry(entries, key) == Entry::Present(false) <==> says_truth(entries, key, false),
        table_entry(entries, key) is Present <==> entries.contains_key(key)
            && entries[key] is Table,
        table_entry(entries, key) is Present ==> entries[key] == TomlView::Table(
            table_entry(entries, key)->Present_0,
        ),
{
}

/// A TCP configuration that was read has in each setting what the table says under
/// the name of that setting. Where the table says nothing, a shutdown waits for
/// thirty seconds, the bytes of a frame are the message, and the rest is left out.
pub proof fn law_tcp_settings(
    entries: Entries,
    address: Option<SocketListenAddr>,
    config: TcpConfig,
)
    requires
        config_error(TomlView::Table(entries), address) is None,
        mode_is(Mode::Tcp(config), entries, address),
    ensures
        says_text(entries, "mode"@, "tcp"@),
        has_text(entries, "address"@),
        address == Some(config.address),
        match config.keepalive {
            Some(settings) => says_table(entries, "keepalive"@, settings),
            None => !entries.contains_key("keepalive"@),
        },
        is_size_of(config.max_length, entries, "max_length"@),
        if entries.contains_key("shutdown_timeout_secs"@) {
            says_number(
                entries,
                "shutdown_timeout_secs"@,
                config.shutdown_timeout_secs as int,
            )
        } else {
            config.shutdown_timeout_secs == 30
        },
        is_text_of(config.host_key, entries, "host_key"@),
        is_text_of(config.port_key, entries, "port_key"@),
        match config.tls {
            Some(tls) => says_table(entries, "tls"@, tls.tls_config) && is_text_of(
                tls.client_metadata_key,
                entries["tls"@]->Table_0,
                "client_metadata_key"@,
            ),
            None => !entries.contains_key("tls"@),
        },
        is_size_of(config.receive_buffer_bytes, entries, "receive_buffer_bytes"@),
        is_framing_of(config.framing, entries),
        is_decoding_of(config.decoding, entries),
        is_number_of(config.connection_limit, entries, "connection_limit"@),
        is_truth_of(config.log_namespace, entries, "log_namespace"@),
{
    lemma_names_differ();
}

/// A UDP configuration that was read has in each setting what the table says under
/// the name of that setting. Where the table says nothing, messages have at most
/// 100 KiB and are frames of their own, the bytes of a frame are the message, and
/// the rest is left out.
pub proof fn law_udp_settings(
    entries: Entries,
    address: Option<SocketListenAddr>,
    config: UdpConfig,
)
    requires
        config_error(TomlView::Table(entries), address) is None,
        mode_is(Mode::Udp(config), entries, address),
    ensures
        says_text(entries, "mode"@, "udp"@),
        has_text(entries, "address"@),
        address == Some(config.address),
        if entries.contains_key("max_length"@) {
            says_number(entries, "max_length"@, config.max_length as int)
        } else {
            config.max_length == 100 * 1024
        },
        is_text_of(config.host_key, entries, "host_key"@),
        is_text_of(config.port_key, entries, "port_key"@),
        is_size_of(config.receive_buffer_bytes, entries, "receive_buffer_bytes"@),
        if entries.contains_key("framing"@) {
            is_framing_of(Some(config.framing), entries)
        } else {
            config.framing is MessageBased
        },
        is_decoding_of(config.decoding, entries),
        is_truth_of(config.log_namespace, entries, "log_namespace"@),
{
    lemma_names_differ();
}

/// A configuration of a Unix domain socket that was read, in either mode, has in
/// each setting what the table says under the name of that setting. Where the
/// table says nothing, the bytes of a frame are the message, and the rest is left
/// out.
pub proof fn law_unix_settings(
    entries: Entries,
    address: Option<SocketListenAddr>,
    mode: Mode,
    config: UnixConfig,
)
    requires
        config_error(TomlView::Table(entries), address) is None,
        mode_is(mode, entries, address),
        mode == Mode::UnixDatagram(config) || mode == Mode::UnixStream(config),
    ensures
        mode is UnixDatagram ==> says_text(entries, "mode"@, "unix_datagram"@),
        mode is UnixStream ==> says_text(entries, "mode"@, "unix_stream"@) || says_text(
            entries,
            "mode"@,
            "unix"@,
        ),
        says_text(entries, "path"@, config.path@),
        is_number_of(config.socket_file_mode, entries, "socket_file_mode"@),
        is_size_of(config.max_length, entries, "max_length"@),
        is_text_of(config.host_key, entries, "host_key"@),
        is_framing_of(config.framing, entries),
        is_decoding_of(config.decoding, entries),
        is_truth_of(config.log_namespace, entries, "log_namespace"@),
{
    lemma_names_differ();
}

/// A TCP table is accepted exactly if its address is a string that denotes one and
/// every setting that it has is of its type and in range.
pub proof fn law_tcp_accepted(entries: Entries, address: Option<SocketListenAddr>)
    requires
        says_text(entries, "mode"@, "tcp"@),
    ensures
        config_error(TomlView::Table(entries), address) is None <==> {
            &&& has_text(entries, "address"@)
            &&& address is Some
            &&& may_be_table(entries, "keepalive"@)
            &&& may_be_number(entries, "max_length"@, usize::MAX as int)
            &&& may_be_number(entries, "shutdown_timeout_secs"@, u64::MAX as int)
            &&& may_be_text(entries, "host_key"@)
            &&& may_be_text(entries, "port_key"@)
            &&& may_have_tls(entries)
            &&& may_be_number(entries, "receive_buffer_bytes"@, usize::MAX as int)
            &&& may_be_table(entries, "framing"@)
            &&& may_be_table(entries, "decoding"@)
            &&& may_be_number(entries, "connection_limit"@, u32::MAX as int)
            &&& may_be_truth(entries, "log_namespace"@)
        },
{
    lemma_names_differ();
}

/// A UDP table is accepted exactly if its address is a string that denotes one and
/// every setting that it has is of its type and in range.
pub proof fn law_udp_accepted(entries: Entries, address: Option<SocketListenAddr>)
    requires
        says_text(entries, "mode"@, "udp"@),
    ensures
        config_error(TomlView::Table(entries), address) is None <==> {
            &&& has_text(entries, "address"@)
            &&& address is Some
            &&& may_be_number(entries, "max_length"@, usize::MAX as int)
            &&& may_be_text(entries, "host_key"@)
            &&& may_be_text(entries, "port_key"@)
            &&& may_be_number(entries, "receive_buffer_bytes"@, usize::MAX as int)
            &&& may_be_table(entries, "framing"@)
            &&& may_be_table(entries, "decoding"@)
            &&& may_be_truth(entries, "log_namespace"@)
        },
{
    lemma_names_differ();
}

/// The table of a Unix domain socket is accepted exactly if it has a path and every
/// setting that it has is of its type and in range.
pub proof fn law_unix_accepted(entries: Entries, address: Option<SocketListenAddr>)
    requires
        says_text(entries, "mode"@, "unix_datagram"@) || says_text(
            entries,
            "mode"@,
            "unix_stream"@,
        ) || says_text(entries, "mode"@, "unix"@),
    ensures
        config_error(TomlView::Table(entries), address) is None <==> {
            &&& has_text(entries, "path"@)
            &&& may_be_number(entries, "socket_file_mode"@, u32::MAX as int)
            &&& may_be_number(entries, "max_length"@, usize::MAX as int)
            &&& may_be_text(entries, "host_key"@)
            &&& may_be_table(entries, "framing"@)
            &&& may_be_table(entries, "decoding"@)
            &&& may_be_truth(entries, "log_namespace"@)
        },
{
    lemma_names_differ();
}

/// The key of a field; that of the client metadata is in the table for TLS.
pub open spec fn field_key(field: Field) -> Seq<char> {
    match field {
        Field::Mode => "mode"@,
        Field::Address => "address"@,
        Field::Path => "path"@,
        Field::SocketFileMode => "socket_file_mode"@,
        Field::Keepalive => "keepalive"@,
        Field::MaxLength => "max_length"@,
        Field::ShutdownTimeoutSecs => "shutdown_timeout_secs"@,
        Field::HostKey => "host_key"@,
        Field::PortKey => "port_key"@,
        Field::Tls => "tls"@,
        Field::TlsClientMetadataKey => "tls"@,
        Field::ReceiveBufferBytes => "receive_buffer_bytes"@,
        Field::Framing => "framing"@,
        Field::Decoding => "decoding"@,
        Field::ConnectionLimit => "connection_limit"@,
        Field::LogNamespace => "log_namespace"@,
    }
}

/// The entry of a field is of the right type and in range.
pub open spec fn fits(entries: Entries, field: Field) -> bool {
    let value = entries[field_key(field)];
    match field {
        Field::Mode | Field::Address | Field::Path | Field::HostKey | Field::PortKey => value
            is String,
        Field::Keepalive | Field::Tls | Field::Framing | Field::Decoding => value is Table,
        Field::TlsClientMetadataKey => value is Table && may_be_text(
            value->Table_0,
            "client_metadata_key"@,
        ),
        Field::LogNamespace => value is Boolean,
        Field::MaxLength | Field::ReceiveBufferBytes => value is Integer && 0
            <= value->Integer_0 <= usize::MAX,
        Field::ShutdownTimeoutSecs => value is Integer && 0 <= value->Integer_0,
        Field::SocketFileMode | Field::ConnectionLimit => value is Integer && 0
            <= value->Integer_0 <= u32::MAX,
    }
}

/// A complaint is about something that is so: what it calls missing is required
/// and not there, and what it calls invalid is there and does not fit, or is an
/// address that denotes none.
pub proof fn law_complaint(value: TomlView, address: Option<SocketListenAddr>)
    ensures
        config_error(value, address) == Some(ReadError::NotATable) <==> !(value is Table),
        value matches TomlView::Table(entries) ==> {
            &&& config_error(value, address) == Some(ReadError::Missing(Field::Mode))
                <==> !entries.contains_key("mode"@)
            &&& config_error(value, address) == Some(ReadError::Invalid(Field::Mode)) <==> (
            entries.contains_key("mode"@) && !(entries["mode"@] is String))
            &&& config_error(value, address) == Some(ReadError::UnknownMode) <==> (has_text(
                entries,
                "mode"@,
            ) && !says_text(entries, "mode"@, "tcp"@) && !says_text(entries, "mode"@, "udp"@)
                && !says_text(entries, "mode"@, "unix_datagram"@) && !says_text(
                entries,
                "mode"@,
                "unix_stream"@,
            ) && !says_text(entries, "mode"@, "unix"@))
            &&& match config_error(value, address) {
                Some(ReadError::Missing(field)) => !entries.contains_key(field_key(field)) && (
                field is Mode || field is Address || field is Path),
                Some(ReadError::Invalid(field)) => entries.contains_key(field_key(field)) && (
                !fits(entries, field) || (field is Address && address is None)),
                _ => true,
            }
        },
{
    lemma_names_differ();
}

/// The settings of the TCP mode.
pub open spec fn is_tcp_key(key: Seq<char>) -> bool {
    ||| key == "mode"@
    ||| key == "address"@
    ||| key == "keepalive"@
    ||| key == "max_length"@
    ||| key == "shutdown_timeout_secs"@
    ||| key == "host_key"@
    ||| key == "port_key"@
    ||| key == "tls"@
    ||| key == "receive_buffer_bytes"@
    ||| key == "framing"@
    ||| key == "decoding"@
    ||| key == "connection_limit"@
    ||| key == "log_namespace"@
}

/// The settings of the UDP mode.
pub open spec fn is_udp_key(key: Seq<char>) -> bool {
    ||| key == "mode"@
    ||| key == "address"@
    ||| key == "max_length"@
    ||| key == "host_key"@
    ||| key == "port_key"@
    ||| key == "receive_buffer_bytes"@
    ||| key == "framing"@
    ||| key == "decoding"@
    ||| key == "log_namespace"@
}

/// The settings of the Unix domain socket modes.
pub open spec fn is_unix_key(key: Seq<char>) -> bool {
    ||| key == "mode"@
    ||| key == "path"@
    ||| key == "socket_file_mode"@
    ||| key == "max_length"@
    ||| key == "host_key"@
    ||| key == "framing"@
    ||| key == "decoding"@
    ||| key == "log_namespace"@
}

/// Settings of other modes change nothing in a table, neither whether it is
/// accepted nor what it is read as.
pub proof fn law_settings_of_other_modes(
    entries: Entries,
    key: Seq<char>,
    value: TomlView,
    address: Option<SocketListenAddr>,
    mode: Mode,
)
    requires
        has_text(entries, "mode"@),
        says_text(entries, "mode"@, "tcp"@) ==> !is_tcp_key(key),
        says_text(entries, "mode"@, "udp"@) ==> !is_udp_key(key),
        !says_text(entries, "mode"@, "tcp"@) && !says_text(entries, "mode"@, "udp"@)
            ==> !is_unix_key(key),
    ensures
        config_error(TomlView::Table(entries.insert(key, value)), address) == config_error(
            TomlView::Table(entries),
            address,
        ),
        mode_is(mode, entries.insert(key, value), address) == mode_is(mode, entries, address),
{
    lemma_names_differ();
}

/// A TCP and a UDP table that have the same entries for the fields of the host and
/// of the port are read with the same fields, whatever else they have.
pub proof fn law_network_modes_read_alike(
    tcp_entries: Entries,
    udp_entries: Entries,
    tcp_address: Option<SocketListenAddr>,
    udp_address: Option<SocketListenAddr>,
    tcp: TcpConfig,
    udp: UdpConfig,
)
    requires
        config_error(TomlView::Table(tcp_entries), tcp_address) is None,
        mode_is(Mode::Tcp(tcp), tcp_entries, tcp_address),
        config_error(TomlView::Table(udp_entries), udp_address) is None,
        mode_is(Mode::Udp(udp), udp_entries, udp_address),
        tcp_entries.contains_key("host_key"@) <==> udp_entries.contains_key("host_key"@),
        tcp_entries["host_key"@] == udp_entries["host_key"@],
        tcp_entries.contains_key("port_key"@) <==> udp_entries.contains_key("port_key"@),
        tcp_entries["port_key"@] == udp_entries["port_key"@],
    ensures
        tcp.host_key is Some <==> udp.host_key is Some,
        tcp.host_key is Some ==> tcp.host_key->0@ == udp.host_key->0@,
        tcp.port_key is Some <==> udp.port_key is Some,
        tcp.port_key is Some ==> tcp.port_key->0@ == udp.port_key->0@,
{
    law_tcp_settings(tcp_entries, tcp_address, tcp);
    law_udp_settings(udp_entries, udp_address, udp);
}

/// The field that a table names for the host is the one in which the source
/// announces it, in every mode, and likewise for the port in the network modes; a
/// value that is already there is kept. A field that the table does not name is
/// not announced.
pub proof fn law_named_fields_are_announced(
    entries: Entries,
    address: Option<SocketListenAddr>,
    mode: Mode,
    schema: LogSchema,
    name: Seq<char>,
)
    requires
        config_error(TomlView::Table(entries), address) is None,
        mode_is(mode, entries, address),
    ensures
        metadata_spec(mode, schema)[0].vector_path == seq![schema.host_key@],
        says_text(entries, "host_key"@, name) ==> metadata_spec(mode, schema)[0].legacy_path
            == Some(LegacyKey::InsertIfEmpty(seq![name])),
        !entries.contains_key("host_key"@) ==> metadata_spec(mode, schema)[0].legacy_path is None,
        mode is Tcp || mode is Udp ==> {
            &&& metadata_spec(mode, schema)[1].vector_path == seq!["port"@]
            &&& says_text(entries, "port_key"@, name) ==> metadata_spec(
                mode,
                schema,
            )[1].legacy_path == Some(LegacyKey::InsertIfEmpty(seq![name]))
            &&& !entries.contains_key("port_key"@) ==> metadata_spec(
                mode,
                schema,
            )[1].legacy_path is None
        },
{
}

/// The address that a table denotes is what the source uses: its port of the
/// protocol of the mode, or its file descriptor. A socket file uses neither.
pub proof fn law_read_address_is_used(
    entries: Entries,
    address: Option<SocketListenAddr>,
    mode: Mode,
)
    requires
        config_error(TomlView::Table(entries), address) is None,
        mode_is(mode, entries, address),
    ensures
        mode.resources_spec() =~= (if says_text(entries, "mode"@, "tcp"@) || says_text(
            entries,
            "mode"@,
            "udp"@,
        ) {
            seq![
                match address->0 {
                    SocketListenAddr::SocketAddr(addr) => Resource::Port(
                        addr,
                        if says_text(entries, "mode"@, "tcp"@) {
                            Protocol::Tcp
                        } else {
                            Protocol::Udp
                        },
                    ),
                    SocketListenAddr::SystemdFd(offset) => Resource::SystemFdOffset(offset),
                },
            ]
        } else {
            Seq::empty()
        }),
{
    lemma_names_differ();
}

/// The TCP source that runs has what its table says: the TLS settings to load are
/// the table under `tls`, and address, keepalive, timeout, buffer and limit are
/// those of the entries.
pub proof fn law_read_tcp_source_runs<T>(
    entries: Entries,
    address: Option<SocketListenAddr>,
    mode: Mode,
    cx: SourceContext,
    tls: T,
)
    requires
        config_error(TomlView::Table(entries), address) is None,
        mode_is(mode, entries, address),
        says_text(entries, "mode"@, "tcp"@),
        !entries.contains_key("framing"@) || !entries.contains_key("max_length"@),
    ensures
        match build_spec(&mode, cx) {
            Ok(BuildStep::LoadTls(plan)) => {
                let source = plan.with_tls(tls);
                &&& match plan.tls_config {
                    Some(settings) => says_table(entries, "tls"@, *settings),
                    None => !entries.contains_key("tls"@),
                }
                &&& match source.tls_client_metadata_key {
                    Some(key) => entries.contains_key("tls"@) && says_text(
                        entries["tls"@]->Table_0,
                        "client_metadata_key"@,
                        key@,
                    ),
                    None => !entries.contains_key("tls"@)
                        || !entries["tls"@]->Table_0.contains_key("client_metadata_key"@),
                }
                &&& address == Some(source.address)
                &&& match source.keepalive {
                    Some(settings) => says_table(entries, "keepalive"@, *settings),
                    None => !entries.contains_key("keepalive"@),
                }
                &&& entries.contains_key("shutdown_timeout_secs"@) ==> says_number(
                    entries,
                    "shutdown_timeout_secs"@,
                    source.shutdown_timeout_secs as int,
                )
                &&& !entries.contains_key("shutdown_timeout_secs"@)
                    ==> source.shutdown_timeout_secs == 30
                &&& is_size_of(source.receive_buffer_bytes, entries, "receive_buffer_bytes"@)
                &&& is_number_of(source.connection_limit, entries, "connection_limit"@)
                &&& source.tls == tls
            },
            _ => false,
        },
{
    lemma_names_differ();
    law_tcp_settings(entries, address, mode->Tcp_0);
}

/// The events of a source that was read are apart from their metadata exactly if
/// its table says so, or says nothing and the pipeline does.
pub proof fn law_read_namespace(
    entries: Entries,
    address: Option<SocketListenAddr>,
    mode: Mode,
    cx: SourceContext,
)
    requires
        config_error(TomlView::Table(entries), address) is None,
        mode_is(mode, entries, address),
        build_spec(&mode, cx) is Ok,
    ensures
        step_namespace(build_spec(&mode, cx)->Ok_0) == LogNamespace::Vector <==> (says_truth(
            entries,
            "log_namespace"@,
            true,
        ) || (!entries.contains_key("log_namespace"@) && cx.schema_log_namespace == Some(true))),
{
}

} // verus!
