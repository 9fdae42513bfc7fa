//! Reading the configuration of the `socket` source from a TOML table.
//!
//! The entry `mode` says how the source listens; the entries beside it are the
//! settings of that mode. This reader chooses to ignore entries that a mode does
//! not know rather than to refuse them. Tables of settings for other layers are
//! kept as they are.

use super::entries::{
    first, number_entry, optional, read_number, read_required_text, read_size, read_table,
    read_text, read_truth, read_u32, required, settings_are, size_entry, size_of_entry,
    table_entry, text_entry, text_is, truth_entry, truth_of_entry, u32_of_entry, Entries, Entry,
    Field, ReadError,
};
use super::tcp::{TcpConfig, TlsSourceConfig, DEFAULT_SHUTDOWN_TIMEOUT_SECS};
use super::udp::UdpConfig;
use super::unix::UnixConfig;
use super::{Mode, SocketConfig};
use crate::codecs::{DeserializerConfig, FramingConfig, DEFAULT_MAX_LENGTH};
use crate::net::SocketListenAddr;
use crate::toml_value::{toml_as_str, toml_get, toml_is_table, toml_view, TomlView};
use vstd::prelude::*;

verus! {

/// `setting` is the framing of the table `entry`, or nothing if there is no such
/// entry.
pub open spec fn framing_is(setting: Option<FramingConfig>, entry: Entry<Entries>) -> bool {
    match entry {
        Entry::Present(inner) => match setting {
            Some(FramingConfig::Settings(settings)) => toml_view(settings) == TomlView::Table(inner),
            _ => false,
        },
        _ => setting is None,
    }
}

/// `setting` is the deserializer of the table `entry`, or the one for bytes if
/// there is no such entry.
pub open spec fn decoding_is(setting: DeserializerConfig, entry: Entry<Entries>) -> bool {
    match entry {
        Entry::Present(inner) => match setting {
            DeserializerConfig::Settings(settings) => toml_view(settings) == TomlView::Table(inner),
            _ => false,
        },
        _ => setting is Bytes,
    }
}

/// `setting` is the TLS configuration of the table `entry`, or nothing if there
/// is no such entry.
pub open spec fn tls_is(setting: Option<TlsSourceConfig>, entry: Entry<Entries>) -> bool {
    match entry {
        Entry::Present(inner) => match setting {
            Some(tls) => toml_view(tls.tls_config) == TomlView::Table(inner) && text_is(
                tls.client_metadata_key,
                text_entry(inner, "client_metadata_key"@),
            ),
            None => false,
        },
        _ => setting is None,
    }
}

/// The complaint about the entry for TLS.
pub open spec fn tls_error(entry: Entry<Entries>) -> Option<ReadError> {
    match entry {
        Entry::Absent => None,
        Entry::Invalid => Some(ReadError::Invalid(Field::Tls)),
        Entry::Present(inner) => optional(
            text_entry(inner, "client_metadata_key"@),
            Field::TlsClientMetadataKey,
        ),
    }
}

/// The complaint about the listen address: the entry must be a string that
/// denotes an address.
pub open spec fn address_error(entries: Entries, address: Option<SocketListenAddr>) -> Option<
    ReadError,
> {
    first(
        required(text_entry(entries, "address"@), Field::Address),
        if address is None {
            Some(ReadError::Invalid(Field::Address))
        } else {
            None
        },
    )
}

/// The first complaint about the settings of the TCP mode.
pub open spec fn tcp_error(entries: Entries, address: Option<SocketListenAddr>) -> Option<
    ReadError,
> {
    let error = address_error(entries, address);
    let error = first(error, optional(table_entry(entries, "keepalive"@), Field::Keepalive));
    let error = first(error, optional(size_entry(entries, "max_length"@), Field::MaxLength));
    let error = first(
        error,
        optional(
            number_entry(entries, "shutdown_timeout_secs"@, u64::MAX as int),
            Field::ShutdownTimeoutSecs,
        ),
    );
    let error = first(error, optional(text_entry(entries, "host_key"@), Field::HostKey));
    let error = first(error, optional(text_entry(entries, "port_key"@), Field::PortKey));
    let error = first(error, tls_error(table_entry(entries, "tls"@)));
    let error = first(
        error,
        optional(size_entry(entries, "receive_buffer_bytes"@), Field::ReceiveBufferBytes),
    );
    let error = first(error, optional(table_entry(entries, "framing"@), Field::Framing));
    let error = first(error, optional(table_entry(entries, "decoding"@), Field::Decoding));
    let error = first(
        error,
        optional(
            number_entry(entries, "connection_limit"@, u32::MAX as int),
            Field::ConnectionLimit,
        ),
    );
    first(error, optional(truth_entry(entries, "log_namespace"@), Field::LogNamespace))
}

/// `config` is the TCP configuration of the entries.
pub open spec fn tcp_is(config: TcpConfig, entries: Entries, address: SocketListenAddr) -> bool {
    &&& config.address == address
    &&& settings_are(config.keepalive, table_entry(entries, "keepalive"@))
    &&& config.max_length == size_of_entry(size_entry(entries, "max_length"@))
    &&& config.shutdown_timeout_secs == match number_entry(
        entries,
        "shutdown_timeout_secs"@,
        u64::MAX as int,
    ) {
        Entry::Present(secs) => secs,
        _ => DEFAULT_SHUTDOWN_TIMEOUT_SECS as int,
    }
    &&& text_is(config.host_key, text_entry(entries, "host_key"@))
    &&& text_is(config.port_key, text_entry(entries, "port_key"@))
    &&& tls_is(config.tls, table_entry(entries, "tls"@))
    &&& config.receive_buffer_bytes == size_of_entry(size_entry(entries, "receive_buffer_bytes"@))
    &&& framing_is(config.framing, table_entry(entries, "framing"@))
    &&& decoding_is(config.decoding, table_entry(entries, "decoding"@))
    &&& config.connection_limit == u32_of_entry(
        number_entry(entries, "connection_limit"@, u32::MAX as int),
    )
    &&& config.log_namespace == truth_of_entry(truth_entry(entries, "log_namespace"@))
}

/// The first complaint about the settings of the UDP mode.
pub open spec fn udp_error(entries: Entries, address: Option<SocketListenAddr>) -> Option<
    ReadError,
> {
    let error = address_error(entries, address);
    let error = first(error, optional(size_entry(entries, "max_length"@), Field::MaxLength));
    let error = first(error, optional(text_entry(entries, "host_key"@), Field::HostKey));
    let error = first(error, optional(text_entry(entries, "port_key"@), Field::PortKey));
    let error = first(
        error,
        optional(size_entry(entries, "receive_buffer_bytes"@), Field::ReceiveBufferBytes),
    );
    let error = first(error, optional(table_entry(entries, "framing"@), Field::Framing));
    let error = first(error, optional(table_entry(entries, "decoding"@), Field::Decoding));
    first(error, optional(truth_entry(entries, "log_namespace"@), Field::LogNamespace))
}

/// `config` is the UDP configuration of the entries.
pub open spec fn udp_is(config: UdpConfig, entries: Entries, address: SocketListenAddr) -> bool {
    &&& config.address == address
    &&& config.max_length == match size_entry(entries, "max_length"@) {
        Entry::Present(bytes) => bytes,
        _ => DEFAULT_MAX_LENGTH as int,
    }
    &&& text_is(config.host_key, text_entry(entries, "host_key"@))
    &&& text_is(config.port_key, text_entry(entries, "port_key"@))
    &&& config.receive_buffer_bytes == size_of_entry(size_entry(entries, "receive_buffer_bytes"@))
    &&& match table_entry(entries, "framing"@) {
        Entry::Absent => config.framing is MessageBased,
        entry => framing_is(Some(config.framing), entry),
    }
    &&& decoding_is(config.decoding, table_entry(entries, "decoding"@))
    &&& config.log_namespace == truth_of_entry(truth_entry(entries, "log_namespace"@))
}

/// The first complaint about the settings of the Unix domain socket modes.
pub open spec fn unix_error(entries: Entries) -> Option<ReadError> {
    let error = required(text_entry(entries, "path"@), Field::Path);
    let error = first(
        error,
        optional(
            number_entry(entries, "socket_file_mode"@, u32::MAX as int),
            Field::SocketFileMode,
        ),
    );
    let error = first(error, optional(size_entry(entries, "max_length"@), Field::MaxLength));
    let error = first(error, optional(text_entry(entries, "host_key"@), Field::HostKey));
    let error = first(error, optional(table_entry(entries, "framing"@), Field::Framing));
    let error = first(error, optional(table_entry(entries, "decoding"@), Field::Decoding));
    first(error, optional(truth_entry(entries, "log_namespace"@), Field::LogNamespace))
}

/// `config` is the Unix domain socket configuration of the entries.
pub open spec fn unix_is(config: UnixConfig, entries: Entries) -> bool {
    &&& text_is(Some(config.path), text_entry(entries, "path"@))
    &&& config.socket_file_mode == u32_of_entry(
        number_entry(entries, "socket_file_mode"@, u32::MAX as int),
    )
    &&& config.max_length == size_of_entry(size_entry(entries, "max_length"@))
    &&& text_is(config.host_key, text_entry(entries, "host_key"@))
    &&& framing_is(config.framing, table_entry(entries, "framing"@))
    &&& decoding_is(config.decoding, table_entry(entries, "decoding"@))
    &&& config.log_namespace == truth_of_entry(truth_entry(entries, "log_namespace"@))
}

/// How a source listens.
#[derive(Clone, Copy, Debug, PartialEq, Eq, Structural)]
pub enum ModeName {
    Tcp,
    Udp,
    UnixDatagram,
    UnixStream,
}

/// The mode of a name. The stream mode of Unix domain sockets has two names.
pub open spec fn named_mode(name: Seq<char>) -> Option<ModeName> {
    if name == "tcp"@ {
        Some(ModeName::Tcp)
    } else if name == "udp"@ {
        Some(ModeName::Udp)
    } else if name == "unix_datagram"@ {
        Some(ModeName::UnixDatagram)
    } else if name == "unix_stream"@ || name == "unix"@ {
        Some(ModeName::UnixStream)
    } else {
        None
    }
}

/// The first complaint about a value as a configuration of the source, where
/// `address` is the listen address that its entry `address` denotes.
pub open spec fn config_error(value: TomlView, address: Option<SocketListenAddr>) -> Option<
    ReadError,
> {
    match value {
        TomlView::Table(entries) => match text_entry(entries, "mode"@) {
            Entry::Present(name) => match named_mode(name) {
                Some(ModeName::Tcp) => tcp_error(entries, address),
                Some(ModeName::Udp) => udp_error(entries, address),
                Some(ModeName::UnixDatagram) => unix_error(entries),
                Some(ModeName::UnixStream) => unix_error(entries),
                None => Some(ReadError::UnknownMode),
            },
            entry => required(entry, Field::Mode),
        },
        _ => Some(ReadError::NotATable),
    }
}

/// `mode` is the mode that the entries name, with the settings that they have.
pub open spec fn mode_is(mode: Mode, entries: Entries, address: Option<SocketListenAddr>) -> bool {
    match text_entry(entries, "mode"@) {
        Entry::Present(name) => match mode {
            Mode::Tcp(config) => named_mode(name) == Some(ModeName::Tcp) && tcp_is(
                config,
                entries,
                address->0,
            ),
            Mode::Udp(config) => named_mode(name) == Some(ModeName::Udp) && udp_is(
                config,
                entries,
                address->0,
            ),
            Mode::UnixDatagram(config) => named_mode(name) == Some(ModeName::UnixDatagram)
                && unix_is(config, entries),
            Mode::UnixStream(config) => named_mode(name) == Some(ModeName::UnixStream) && unix_is(
                config,
                entries,
            ),
        },
        _ => false,
    }
}

fn mode_named(name: &str) -> (mode: Option<ModeName>)
    ensures
        mode == named_mode(name@),
{
    let name = name.to_string();
    if name == "tcp".to_string() {
        Some(ModeName::Tcp)
    } else if name == "udp".to_string() {
        Some(ModeName::Udp)
    } else if name == "unix_datagram".to_string() {
        Some(ModeName::UnixDatagram)
    } else if name == "unix_stream".to_string() || name == "unix".to_string() {
        Some(ModeName::UnixStream)
    } else {
        None
    }
}

fn read_framing(table: &toml::Value) -> (framing: Result<Option<FramingConfig>, ReadError>)
    requires
        toml_view(*table) is Table,
    ensures
        ({
            let entry = table_entry(toml_view(*table)->Table_0, "framing"@);
            match framing {
                Ok(framing) => optional(entry, Field::Framing) is None && framing_is(
                    framing,
                    entry,
                ),
                Err(error) => optional(entry, Field::Framing) == Some(error),
            }
        }),
{
    match read_table(table, "framing", Field::Framing)? {
        Some(settings) => Ok(Some(FramingConfig::Settings(settings))),
        None => Ok(None),
    }
}

fn read_decoding(table: &toml::Value) -> (decoding: Result<DeserializerConfig, ReadError>)
    requires
        toml_view(*table) is Table,
    ensures
        ({
            let entry = table_entry(toml_view(*table)->Table_0, "decoding"@);
            match decoding {
                Ok(decoding) => optional(entry, Field::Decoding) is None && decoding_is(
                    decoding,
                    entry,
                ),
                Err(error) => optional(entry, Field::Decoding) == Some(error),
            }
        }),
{
    match read_table(table, "decoding", Field::Decoding)? {
        Some(settings) => Ok(DeserializerConfig::Settings(settings)),
        None => Ok(DeserializerConfig::Bytes),
    }
}

fn read_tls(table: &toml::Value) -> (tls: Result<Option<TlsSourceConfig>, ReadError>)
    requires
        toml_view(*table) is Table,
    ensures
        ({
            let entry = table_entry(toml_view(*table)->Table_0, "tls"@);
            match tls {
                Ok(tls) => tls_error(entry) is None && tls_is(tls, entry),
                Err(error) => tls_error(entry) == Some(error),
            }
        }),
{
    match read_table(table, "tls", Field::Tls)? {
        Some(tls_config) => {
            let client_metadata_key = read_text(
                &tls_config,
                "client_metadata_key",
                Field::TlsClientMetadataKey,
            )?;
            Ok(Some(TlsSourceConfig { tls_config, client_metadata_key }))
        },
        None => Ok(None),
    }
}

fn read_address(table: &toml::Value, address: Option<SocketListenAddr>) -> (listen: Result<
    SocketListenAddr,
    ReadError,
>)
    requires
        toml_view(*table) is Table,
    ensures
        match listen {
            Ok(listen) => address_error(toml_view(*table)->Table_0, address) is None && address
                == Some(listen),
            Err(error) => address_error(toml_view(*table)->Table_0, address) == Some(error),
        },
{
    let _ = read_required_text(table, "address", Field::Address)?;
    match address {
        Some(listen) => Ok(listen),
        None => Err(ReadError::Invalid(Field::Address)),
    }
}

fn read_tcp(table: &toml::Value, address: Option<SocketListenAddr>) -> (config: Result<
    TcpConfig,
    ReadError,
>)
    requires
        toml_view(*table) is Table,
    ensures
        match config {
            Ok(config) => tcp_error(toml_view(*table)->Table_0, address) is None && tcp_is(
                config,
                toml_view(*table)->Table_0,
                address->0,
            ),
            Err(error) => tcp_error(toml_view(*table)->Table_0, address) == Some(error),
        },
{
    let address = read_address(table, address)?;
    let keepalive = read_table(table, "keepalive", Field::Keepalive)?;
    let max_length = read_size(table, "max_length", Field::MaxLength)?;
    let shutdown_timeout_secs = match read_number(
        table,
        "shutdown_timeout_secs",
        Field::ShutdownTimeoutSecs,
        u64::MAX,
    )? {
        Some(secs) => secs,
        None => DEFAULT_SHUTDOWN_TIMEOUT_SECS,
    };
    let host_key = read_text(table, "host_key", Field::HostKey)?;
    let port_key = read_text(table, "port_key", Field::PortKey)?;
    let tls = read_tls(table)?;
    let receive_buffer_bytes = read_size(
        table,
        "receive_buffer_bytes",
        Field::ReceiveBufferBytes,
    )?;
    let framing = read_framing(table)?;
    let decoding = read_decoding(table)?;
    let connection_limit = read_u32(table, "connection_limit", Field::ConnectionLimit)?;
    let log_namespace = read_truth(table, "log_namespace", Field::LogNamespace)?;
    Ok(
        TcpConfig {
            address,
            keepalive,
            max_length,
            shutdown_timeout_secs,
            host_key,
            port_key,
            tls,
            receive_buffer_bytes,
            framing,
            decoding,
            connection_limit,
            log_namespace,
        },
    )
}

fn read_udp(table: &toml::Value, address: Option<SocketListenAddr>) -> (config: Result<
    UdpConfig,
    ReadError,
>)
    requires
        toml_view(*table) is Table,
    ensures
        match config {
            Ok(config) => udp_error(toml_view(*table)->Table_0, address) is None && udp_is(
                config,
                toml_view(*table)->Table_0,
                address->0,
            ),
            Err(error) => udp_error(toml_view(*table)->Table_0, address) == Some(error),
        },
{
    let address = read_address(table, address)?;
    let max_length = match read_size(table, "max_length", Field::MaxLength)? {
        Some(bytes) => bytes,
        None => DEFAULT_MAX_LENGTH,
    };
    let host_key = read_text(table, "host_key", Field::HostKey)?;
    let port_key = read_text(table, "port_key", Field::PortKey)?;
    let receive_buffer_bytes = read_size(
        table,
        "receive_buffer_bytes",
        Field::ReceiveBufferBytes,
    )?;
    let framing = match read_framing(table)? {
        Some(framing) => framing,
        None => FramingConfig::MessageBased,
    };
    let decoding = read_decoding(table)?;
    let log_namespace = read_truth(table, "log_namespace", Field::LogNamespace)?;
    Ok(
        UdpConfig {
            address,
            max_length,
            host_key,
            port_key,
            receive_buffer_bytes,
            framing,
            decoding,
            log_namespace,
        },
    )
}

fn read_unix(table: &toml::Value) -> (config: Result<UnixConfig, ReadError>)
    requires
        toml_view(*table) is Table,
    ensures
        match config {
            Ok(config) => unix_error(toml_view(*table)->Table_0) is None && unix_is(
                config,
                toml_view(*table)->Table_0,
            ),
            Err(error) => unix_error(toml_view(*table)->Table_0) == Some(error),
        },
{
    let path = read_required_text(table, "path", Field::Path)?;
    let socket_file_mode = read_u32(table, "socket_file_mode", Field::SocketFileMode)?;
    let max_length = read_size(table, "max_length", Field::MaxLength)?;
    let host_key = read_text(table, "host_key", Field::HostKey)?;
    let framing = read_framing(table)?;
    let decoding = read_decoding(table)?;
    let log_namespace = read_truth(table, "log_namespace", Field::LogNamespace)?;
    Ok(
        UnixConfig {
            path,
            socket_file_mode,
            max_length,
            host_key,
            framing,
            decoding,
            log_namespace,
        },
    )
}

/// The text that is to denote the listen address of a configuration: its entry
/// `address`, if that is a string.
pub fn address_text<'a>(value: &'a toml::Value) -> (text: Option<&'a str>)
    ensures
        match toml_view(*value) {
            TomlView::Table(entries) => match text_entry(entries, "address"@) {
                Entry::Present(chars) => text is Some && text->0@ == chars,
                _ => text is None,
            },
            _ => text is None,
        },
{
    match toml_get(value, "address") {
        Some(entry) => toml_as_str(entry),
        None => None,
    }
}

impl SocketConfig {
    /// Reads a configuration. `address` is the listen address that the text
    /// `address_text` of `value` denotes, or nothing if it denotes none; it counts
    /// in the network modes only.
    pub fn from_value(value: &toml::Value, address: Option<SocketListenAddr>) -> (config: Result<
        SocketConfig,
        ReadError,
    >)
        ensures
            match config {
                Ok(config) => config_error(toml_view(*value), address) is None && mode_is(
                    config.mode,
                    toml_view(*value)->Table_0,
                    address,
                ),
                Err(error) => config_error(toml_view(*value), address) == Some(error),
            },
    {
        if !toml_is_table(value) {
            return Err(ReadError::NotATable);
        }
        let name = read_required_text(value, "mode", Field::Mode)?;
        let mode = match mode_named(name.as_str()) {
            Some(ModeName::Tcp) => Mode::Tcp(read_tcp(value, address)?),
            Some(ModeName::Udp) => Mode::Udp(read_udp(value, address)?),
            Some(ModeName::UnixDatagram) => Mode::UnixDatagram(read_unix(value)?),
            Some(ModeName::UnixStream) => Mode::UnixStream(read_unix(value)?),
            None => {
                return Err(ReadError::UnknownMode);
            },
        };
        Ok(SocketConfig { mode })
    }
}

} // verus!
