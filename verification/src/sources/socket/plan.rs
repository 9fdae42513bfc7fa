//! Building the `socket` source: from the configuration to the source that is
//! to be run.
//!
//! Loading TLS settings reads files, so the TCP mode is built in two steps:
//! `SocketConfig::build` gives a plan that says which TLS settings to load, and
//! `TcpPlan::complete` takes what became of them.

use super::tcp::{TcpConfig, TlsSourceConfig};
use super::udp::UdpConfig;
use super::unix::UnixConfig;
use super::{Mode, SocketConfig};
use crate::codecs::{DecodingConfig, DeserializerConfig, Framing, FramingConfig};
use crate::error::{ComponentError, Result};
use crate::namespace::{namespace_of, LogNamespace, SourceContext};
use crate::net::SocketListenAddr;
use vstd::prelude::*;

verus! {

/// A TCP source whose TLS settings are still to be loaded.
#[derive(Debug)]
pub struct TcpPlan<'a> {
    pub config: &'a TcpConfig,
    pub decoder: DecodingConfig<'a>,
    pub log_namespace: LogNamespace,
    /// The TLS settings to load, if there are any.
    pub tls_config: Option<&'a toml::Value>,
    /// Whether the settings are loaded for the server side of connections.
    pub tls_for_server: bool,
    pub tls_client_metadata_key: Option<&'a String>,
}

/// A TCP source that is ready to run, with its loaded TLS settings.
#[derive(Debug)]
pub struct TcpSource<'a, T> {
    pub config: &'a TcpConfig,
    pub decoder: DecodingConfig<'a>,
    pub log_namespace: LogNamespace,
    pub address: SocketListenAddr,
    pub keepalive: Option<&'a toml::Value>,
    pub shutdown_timeout_secs: u64,
    pub tls: T,
    pub tls_client_metadata_key: Option<&'a String>,
    pub receive_buffer_bytes: Option<usize>,
    pub acknowledgements: bool,
    pub connection_limit: Option<u32>,
}

/// A UDP source that is ready to run.
#[derive(Debug)]
pub struct UdpSource<'a> {
    pub config: &'a UdpConfig,
    pub decoder: DecodingConfig<'a>,
    pub log_namespace: LogNamespace,
}

/// A source on a Unix domain socket that is ready to run.
#[derive(Debug)]
pub struct UnixSource<'a> {
    pub config: &'a UnixConfig,
    pub decoder: DecodingConfig<'a>,
    pub log_namespace: LogNamespace,
}

/// What is to be done to get the source running.
#[derive(Debug)]
pub enum BuildStep<'a> {
    /// Load the TLS settings of the plan, and complete it.
    LoadTls(TcpPlan<'a>),
    /// Run a UDP source.
    Udp(UdpSource<'a>),
    /// Run a source on a Unix domain socket, in datagram mode.
    UnixDatagram(UnixSource<'a>),
    /// Run a source on a Unix domain socket, in stream mode.
    UnixStream(UnixSource<'a>),
}

/// The framing of a stream of bytes. A configured framing and a maximum length
/// exclude each other; the maximum length alone stands for newline-delimited
/// frames of at most that length; and with neither the deserializer decides.
pub open spec fn stream_framing_spec<'a>(
    framing: &'a Option<FramingConfig>,
    max_length: Option<usize>,
    decoding: &'a DeserializerConfig,
) -> Result<Framing<'a>> {
    match (*framing, max_length) {
        (Some(_), Some(_)) => Err(ComponentError::MaxLengthWithFraming),
        (Some(configured), None) => Ok(Framing::Configured(&configured)),
        (None, Some(max_length)) => Ok(Framing::NewlineDelimited { max_length }),
        (None, None) => Ok(Framing::StreamDefault(decoding)),
    }
}

/// Chooses the framing of a stream of bytes.
pub fn stream_framing<'a>(
    framing: &'a Option<FramingConfig>,
    max_length: Option<usize>,
    decoding: &'a DeserializerConfig,
) -> (chosen: Result<Framing<'a>>)
    ensures
        chosen == stream_framing_spec(framing, max_length, decoding),
{
    match (framing, max_length) {
        (Some(_), Some(_)) => Err(ComponentError::MaxLengthWithFraming),
        (Some(configured), None) => Ok(Framing::Configured(configured)),
        (None, Some(max_length)) => Ok(Framing::NewlineDelimited { max_length }),
        (None, None) => Ok(Framing::StreamDefault(decoding)),
    }
}

/// The TLS settings that a TCP source has.
pub open spec fn tls_settings<'a>(tls: &'a Option<TlsSourceConfig>) -> Option<&'a toml::Value> {
    match *tls {
        Some(tls) => Some(&tls.tls_config),
        None => None,
    }
}

/// The field for client certificate metadata that a TCP source has.
pub open spec fn tls_metadata_key<'a>(tls: &'a Option<TlsSourceConfig>) -> Option<&'a String> {
    match *tls {
        Some(tls) => match tls.client_metadata_key {
            Some(key) => Some(&key),
            None => None,
        },
        None => None,
    }
}

/// The first step of building a TCP source.
pub open spec fn tcp_step<'a>(config: &'a TcpConfig, cx: SourceContext) -> Result<BuildStep<'a>> {
    match stream_framing_spec(&config.framing, config.max_length, &config.decoding) {
        Ok(framing) => Ok(
            BuildStep::LoadTls(
                TcpPlan {
                    config,
                    decoder: DecodingConfig {
                        framing,
                        decoding: &config.decoding,
                        log_namespace: LogNamespace::Legacy,
                    },
                    log_namespace: namespace_of(cx.effective(config.log_namespace)),
                    tls_config: tls_settings(&config.tls),
                    tls_for_server: true,
                    tls_client_metadata_key: tls_metadata_key(&config.tls),
                },
            ),
        ),
        Err(error) => Err(error),
    }
}

/// The UDP source of a configuration.
pub open spec fn udp_source<'a>(config: &'a UdpConfig, cx: SourceContext) -> UdpSource<'a> {
    UdpSource {
        config,
        decoder: DecodingConfig {
            framing: Framing::Configured(&config.framing),
            decoding: &config.decoding,
            log_namespace: LogNamespace::Legacy,
        },
        log_namespace: namespace_of(cx.effective(config.log_namespace)),
    }
}

/// The source of a configuration of a Unix domain socket, with its framing.
pub open spec fn unix_source<'a>(
    config: &'a UnixConfig,
    framing: Framing<'a>,
    cx: SourceContext,
) -> UnixSource<'a> {
    UnixSource {
        config,
        decoder: DecodingConfig {
            framing,
            decoding: &config.decoding,
            log_namespace: LogNamespace::Legacy,
        },
        log_namespace: namespace_of(cx.effective(config.log_namespace)),
    }
}

/// The framing of datagrams: the configured one, or else the one for sockets
/// that deliver whole messages.
pub open spec fn datagram_framing<'a>(framing: &'a Option<FramingConfig>) -> Framing<'a> {
    match *framing {
        Some(configured) => Framing::Configured(&configured),
        None => Framing::MessageDefault,
    }
}

/// How a source that listens in `mode` is built.
pub open spec fn build_spec<'a>(mode: &'a Mode, cx: SourceContext) -> Result<BuildStep<'a>> {
    match *mode {
        Mode::Tcp(config) => tcp_step(&config, cx),
        Mode::Udp(config) => Ok(BuildStep::Udp(udp_source(&config, cx))),
        Mode::UnixDatagram(config) => Ok(
            BuildStep::UnixDatagram(unix_source(&config, datagram_framing(&config.framing), cx)),
        ),
        Mode::UnixStream(config) => match stream_framing_spec(
            &config.framing,
            config.max_length,
            &config.decoding,
        ) {
            Ok(framing) => Ok(BuildStep::UnixStream(unix_source(&config, framing, cx))),
            Err(error) => Err(error),
        },
    }
}

impl SocketConfig {
    /// Decides how the source is built: which decoder and which log namespace it
    /// gets, and for TCP which TLS settings are to be loaded. The stream modes
    /// refuse a maximum length beside a framing.
    pub fn build(&self, cx: &SourceContext) -> (step: Result<BuildStep<'_>>)
        ensures
            step == build_spec(&self.mode, *cx),
    {
        match &self.mode {
            Mode::Tcp(config) => {
                let framing = match stream_framing(
                    &config.framing,
                    config.max_length,
                    &config.decoding,
                ) {
                    Ok(framing) => framing,
                    Err(error) => {
                        return Err(error);
                    },
                };
                let decoder = DecodingConfig::new(framing, &config.decoding, LogNamespace::Legacy);
                let log_namespace = cx.log_namespace(config.log_namespace);
                let tls_config = match &config.tls {
                    Some(tls) => Some(&tls.tls_config),
                    None => None,
                };
                let tls_client_metadata_key = match &config.tls {
                    Some(tls) => tls.client_metadata_key.as_ref(),
                    None => None,
                };
                Ok(
                    BuildStep::LoadTls(
                        TcpPlan {
                            config,
                            decoder,
                            log_namespace,
                            tls_config,
                            tls_for_server: true,
                            tls_client_metadata_key,
                        },
                    ),
                )
            },
            Mode::Udp(config) => {
                let log_namespace = cx.log_namespace(config.log_namespace);
                let decoder = DecodingConfig::new(
                    Framing::Configured(&config.framing),
                    &config.decoding,
                    LogNamespace::Legacy,
                );
                Ok(BuildStep::Udp(UdpSource { config, decoder, log_namespace }))
            },
            Mode::UnixDatagram(config) => {
                let framing = match &config.framing {
                    Some(configured) => Framing::Configured(configured),
                    None => Framing::MessageDefault,
                };
                let decoder = DecodingConfig::new(framing, &config.decoding, LogNamespace::Legacy);
                let log_namespace = cx.log_namespace(config.log_namespace);
                Ok(BuildStep::UnixDatagram(UnixSource { config, decoder, log_namespace }))
            },
            Mode::UnixStream(config) => {
                let framing = match stream_framing(
                    &config.framing,
                    config.max_length,
                    &config.decoding,
                ) {
                    Ok(framing) => framing,
                    Err(error) => {
                        return Err(error);
                    },
                };
                let decoder = DecodingConfig::new(framing, &config.decoding, LogNamespace::Legacy);
                let log_namespace = cx.log_namespace(config.log_namespace);
                Ok(BuildStep::UnixStream(UnixSource { config, decoder, log_namespace }))
            },
        }
    }
}

impl<'a> TcpPlan<'a> {
    /// The source that the plan becomes with the TLS settings `tls`.
    pub open spec fn with_tls<T>(self, tls: T) -> TcpSource<'a, T> {
        TcpSource {
            config: self.config,
            decoder: self.decoder,
            log_namespace: self.log_namespace,
            address: self.config.address,
            keepalive: match self.config.keepalive {
                Some(keepalive) => Some(&keepalive),
                None => None,
            },
            shutdown_timeout_secs: self.config.shutdown_timeout_secs,
            tls,
            tls_client_metadata_key: self.tls_client_metadata_key,
            receive_buffer_bytes: self.config.receive_buffer_bytes,
            acknowledgements: false,
            connection_limit: self.config.connection_limit,
        }
    }

    /// Completes the plan with what became of its TLS settings: the source that
    /// is to be run if they were loaded, and otherwise the reason why not.
    pub fn complete<T>(self, tls: core::result::Result<T, String>) -> (source: Result<
        TcpSource<'a, T>,
    >)
        ensures
            source == match tls {
                Ok(loaded) => Ok(self.with_tls(loaded)),
                Err(reason) => Err(ComponentError::Tls(reason)),
            },
    {
        match tls {
            Ok(loaded) => Ok(
                TcpSource {
                    config: self.config,
                    decoder: self.decoder,
                    log_namespace: self.log_namespace,
                    address: self.config.address,
                    keepalive: self.config.keepalive.as_ref(),
                    shutdown_timeout_secs: self.config.shutdown_timeout_secs,
                    tls: loaded,
                    tls_client_metadata_key: self.tls_client_metadata_key,
                    receive_buffer_bytes: self.config.receive_buffer_bytes,
                    acknowledgements: false,
                    connection_limit: self.config.connection_limit,
                },
            ),
            Err(reason) => Err(ComponentError::Tls(reason)),
        }
    }
}

} // verus!
