use vector_components::codecs::{DeserializerConfig, Framing, FramingConfig};
use vector_components::error::ComponentError;
use vector_components::namespace::{LogNamespace, SourceContext};
use vector_components::net::{Protocol, Resource, SocketAddr, SocketListenAddr};
use vector_components::schema::{Kind, LegacyKey, LogSchema};
use vector_components::sources::socket::entries::{Field, ReadError};
use vector_components::sources::socket::plan::{BuildStep, TcpPlan};
use vector_components::sources::socket::read::address_text;
use vector_components::sources::socket::tcp::{TcpConfig, TlsSourceConfig};
use vector_components::sources::socket::udp::UdpConfig;
use vector_components::sources::socket::unix::UnixConfig;
use vector_components::sources::socket::{Mode, SocketConfig};

const QUIET: SourceContext = SourceContext {
    schema_log_namespace: None,
};

fn addr() -> SocketAddr {
    SocketAddr::V4 {
        octets: 0x7f00_0001,
        port: 9000,
    }
}

fn listen() -> SocketListenAddr {
    SocketListenAddr::from(addr())
}

fn parse_listen_addr(text: &str) -> Option<SocketListenAddr> {
    let (ip, port) = text.rsplit_once(':')?;
    let port = port.parse::<u16>().ok()?;
    let mut octets: u32 = 0;
    let mut n = 0;
    for part in ip.split('.') {
        octets = octets * 256 + u32::from(part.parse::<u8>().ok()?);
        n += 1;
    }
    if n == 4 {
        Some(SocketListenAddr::from(SocketAddr::V4 { octets, port }))
    } else {
        None
    }
}

fn read(text: &str) -> Result<SocketConfig, ReadError> {
    let value: toml::Value = toml::from_str(text).unwrap();
    let address = address_text(&value).and_then(parse_listen_addr);
    SocketConfig::from_value(&value, address)
}

fn tcp() -> TcpConfig {
    TcpConfig::from_address(listen())
}

fn udp() -> UdpConfig {
    let mut config = UdpConfig::from_address(listen());
    config.max_length = 11;
    config
}

fn unix() -> UnixConfig {
    UnixConfig::new("/does/not/exist".to_string())
}

fn json() -> DeserializerConfig {
    DeserializerConfig::Settings(toml::from_str("codec = \"json\"").unwrap())
}

fn schema() -> LogSchema {
    LogSchema {
        host_key: "host".to_string(),
    }
}

fn tcp_plan(config: &SocketConfig) -> TcpPlan<'_> {
    match config.build(&QUIET) {
        Ok(BuildStep::LoadTls(plan)) => plan,
        other => panic!("unexpected: {:?}", other),
    }
}

#[test]
fn generate_config() {
    let cfg = toml::to_string(&SocketConfig::generate_config()).unwrap();

    let config = read(&cfg).unwrap();
    match config.mode {
        Mode::Tcp(tcp) => {
            assert_eq!(
                tcp.address,
                SocketListenAddr::SocketAddr(SocketAddr::V4 {
                    octets: 0,
                    port: 9000
                })
            );
            assert_eq!(tcp.max_length, None);
        }
        other => panic!("unexpected: {:?}", other),
    }
}

#[test]
fn generated_config_is_what_its_text_says() {
    let expected: toml::Value = toml::from_str(
        r#"mode = "tcp"
            address = "0.0.0.0:9000""#,
    )
    .unwrap();
    assert_eq!(SocketConfig::generate_config(), expected);
}

#[test]
fn generated_config_is_written_in_key_order() {
    let text = SocketConfig::generate_config_text();
    assert_eq!(text, "address = \"0.0.0.0:9000\"\nmode = \"tcp\"\n");
    assert_eq!(
        text,
        toml::to_string(&SocketConfig::generate_config()).unwrap()
    );
    let value: toml::Value = toml::from_str(&text).unwrap();
    assert_eq!(value, SocketConfig::generate_config());
}

#[test]
fn generated_config_is_read_from_its_text() {
    let value: toml::Value = toml::from_str(&SocketConfig::generate_config_text()).unwrap();
    let address = address_text(&value).and_then(parse_listen_addr);
    let config = SocketConfig::reread_generated_config(address).unwrap();
    match config.mode {
        Mode::Tcp(tcp) => {
            assert_eq!(
                tcp.address,
                SocketListenAddr::SocketAddr(SocketAddr::V4 {
                    octets: 0,
                    port: 9000
                })
            );
            assert_eq!(tcp.max_length, None);
        }
        other => panic!("unexpected: {:?}", other),
    }
    assert_eq!(
        SocketConfig::reread_generated_config(None).unwrap_err(),
        ReadError::Invalid(Field::Address)
    );
}

#[test]
fn address_text_is_the_string_of_its_entry() {
    let value: toml::Value = toml::from_str("address = \"not an address\"").unwrap();
    assert_eq!(address_text(&value), Some("not an address"));
    let value: toml::Value = toml::from_str("address = 9000").unwrap();
    assert_eq!(address_text(&value), None);
    let value: toml::Value = toml::from_str("path = \"0.0.0.0:9000\"").unwrap();
    assert_eq!(address_text(&value), None);
    assert_eq!(
        address_text(&toml::Value::String("0.0.0.0:9000".to_string())),
        None
    );
    assert_eq!(
        address_text(&SocketConfig::generate_config()),
        Some("0.0.0.0:9000")
    );
}

fn parses_unix_config(mode: &str) -> SocketConfig {
    read(&format!(
        r#"
           mode = "{}"
           path = "/does/not/exist"
        "#,
        mode
    ))
    .unwrap()
}

fn parses_unix_config_file_mode(mode: &str) -> SocketConfig {
    read(&format!(
        r#"
           mode = "{}"
           path = "/does/not/exist"
           socket_file_mode = 0o777
        "#,
        mode
    ))
    .unwrap()
}

#[test]
fn parses_unix_datagram_config() {
    let config = parses_unix_config("unix_datagram");
    assert!(matches!(config.mode, Mode::UnixDatagram { .. }));
}

#[test]
fn parses_unix_datagram_perms() {
    let config = parses_unix_config_file_mode("unix_datagram");
    assert!(matches!(config.mode, Mode::UnixDatagram { .. }));
}

#[test]
fn parses_new_unix_stream_config() {
    let config = parses_unix_config("unix_stream");
    assert!(matches!(config.mode, Mode::UnixStream { .. }));
}

#[test]
fn parses_new_unix_datagram_perms() {
    let config = parses_unix_config_file_mode("unix_stream");
    assert!(matches!(config.mode, Mode::UnixStream { .. }));
}

#[test]
fn parses_old_unix_stream_config() {
    let config = parses_unix_config("unix");
    assert!(matches!(config.mode, Mode::UnixStream { .. }));
}

#[test]
fn file_mode_and_path_are_read() {
    match parses_unix_config_file_mode("unix").mode {
        Mode::UnixStream(config) => {
            assert_eq!(config.path, "/does/not/exist");
            assert_eq!(config.socket_file_mode, Some(0o777));
            assert_eq!(config.max_length, None);
            assert!(config.framing.is_none());
            assert!(matches!(config.decoding, DeserializerConfig::Bytes));
        }
        other => panic!("unexpected: {:?}", other),
    }
}

#[test]
fn tcp_settings_are_read() {
    let config = read(
        r#"
        mode = "tcp"
        address = "127.0.0.1:9000"
        max_length = 10
        shutdown_timeout_secs = 1
        host_key = "from.host"
        port_key = "from_port"
        receive_buffer_bytes = 65536
        connection_limit = 7
        log_namespace = true
        something_else = [1, 2]

        [keepalive]
        time_secs = 60

        [tls]
        enabled = true
        client_metadata_key = "tls_peer"

        [framing]
        method = "bytes"

        [decoding]
        codec = "json"
        "#,
    )
    .unwrap();
    let config = match config.mode {
        Mode::Tcp(config) => config,
        other => panic!("unexpected: {:?}", other),
    };
    assert_eq!(config.address, listen());
    assert_eq!(config.max_length, Some(10));
    assert_eq!(config.shutdown_timeout_secs, 1);
    assert_eq!(config.host_key.as_deref(), Some("from.host"));
    assert_eq!(config.port_key.as_deref(), Some("from_port"));
    assert_eq!(config.receive_buffer_bytes, Some(65536));
    assert_eq!(config.connection_limit, Some(7));
    assert_eq!(config.log_namespace, Some(true));
    assert_eq!(
        config.keepalive,
        Some(toml::from_str("time_secs = 60").unwrap())
    );
    let tls = config.tls.unwrap();
    assert_eq!(tls.client_metadata_key.as_deref(), Some("tls_peer"));
    assert_eq!(tls.tls_config["enabled"].as_bool(), Some(true));
    match config.framing {
        Some(FramingConfig::Settings(settings)) => {
            assert_eq!(settings, toml::from_str("method = \"bytes\"").unwrap())
        }
        other => panic!("unexpected: {:?}", other),
    }
    match config.decoding {
        DeserializerConfig::Settings(settings) => {
            assert_eq!(settings, toml::from_str("codec = \"json\"").unwrap())
        }
        other => panic!("unexpected: {:?}", other),
    }
}

#[test]
fn defaults_where_nothing_is_said() {
    match read("mode = \"tcp\"\naddress = \"127.0.0.1:9000\"")
        .unwrap()
        .mode
    {
        Mode::Tcp(config) => {
            assert_eq!(config.shutdown_timeout_secs, 30);
            assert_eq!(config.max_length, None);
        }
        other => panic!("unexpected: {:?}", other),
    }
    match read("mode = \"udp\"\naddress = \"127.0.0.1:9000\"")
        .unwrap()
        .mode
    {
        Mode::Udp(config) => {
            assert_eq!(config.max_length, 102_400);
            assert!(matches!(config.framing, FramingConfig::MessageBased));
        }
        other => panic!("unexpected: {:?}", other),
    }
}

#[test]
fn bad_configurations_are_refused() {
    assert_eq!(
        SocketConfig::from_value(&toml::Value::Integer(1), None).unwrap_err(),
        ReadError::NotATable
    );
    for (text, error) in [
        ("", ReadError::Missing(Field::Mode)),
        ("mode = 1", ReadError::Invalid(Field::Mode)),
        ("mode = \"unix_seqpacket\"", ReadError::UnknownMode),
        ("mode = \"Tcp\"", ReadError::UnknownMode),
        ("mode = \"tcp\"", ReadError::Missing(Field::Address)),
        ("mode = \"udp\"", ReadError::Missing(Field::Address)),
        (
            "mode = \"tcp\"\naddress = \"nowhere\"",
            ReadError::Invalid(Field::Address),
        ),
        (
            "mode = \"tcp\"\naddress = 9000",
            ReadError::Invalid(Field::Address),
        ),
        ("mode = \"unix\"", ReadError::Missing(Field::Path)),
        (
            "mode = \"unix\"\npath = \"p\"\nmax_length = -1",
            ReadError::Invalid(Field::MaxLength),
        ),
        (
            "mode = \"unix\"\npath = \"p\"\nsocket_file_mode = 4294967296",
            ReadError::Invalid(Field::SocketFileMode),
        ),
        (
            "mode = \"unix\"\npath = \"p\"\nlog_namespace = \"yes\"",
            ReadError::Invalid(Field::LogNamespace),
        ),
        (
            "mode = \"unix\"\npath = \"p\"\nframing = \"bytes\"",
            ReadError::Invalid(Field::Framing),
        ),
        (
            "mode = \"unix\"\npath = \"p\"\ndecoding = \"json\"",
            ReadError::Invalid(Field::Decoding),
        ),
        (
            "mode = \"unix\"\npath = \"p\"\nhost_key = true",
            ReadError::Invalid(Field::HostKey),
        ),
        (
            "mode = \"udp\"\naddress = \"127.0.0.1:1\"\nport_key = 3",
            ReadError::Invalid(Field::PortKey),
        ),
        (
            "mode = \"udp\"\naddress = \"127.0.0.1:1\"\nreceive_buffer_bytes = 0.5",
            ReadError::Invalid(Field::ReceiveBufferBytes),
        ),
        (
            "mode = \"tcp\"\naddress = \"127.0.0.1:1\"\nkeepalive = 3",
            ReadError::Invalid(Field::Keepalive),
        ),
        (
            "mode = \"tcp\"\naddress = \"127.0.0.1:1\"\nshutdown_timeout_secs = -1",
            ReadError::Invalid(Field::ShutdownTimeoutSecs),
        ),
        (
            "mode = \"tcp\"\naddress = \"127.0.0.1:1\"\ntls = true",
            ReadError::Invalid(Field::Tls),
        ),
        (
            "mode = \"tcp\"\naddress = \"127.0.0.1:1\"\ntls = { client_metadata_key = 1 }",
            ReadError::Invalid(Field::TlsClientMetadataKey),
        ),
        (
            "mode = \"tcp\"\naddress = \"127.0.0.1:1\"\nconnection_limit = 4294967296",
            ReadError::Invalid(Field::ConnectionLimit),
        ),
    ] {
        assert_eq!(read(text).unwrap_err(), error, "{}", text);
    }
}

#[test]
fn new_tcp_keeps_the_config() {
    let mut config = tcp();
    config.connection_limit = Some(3);
    match SocketConfig::new_tcp(config).mode {
        Mode::Tcp(config) => {
            assert_eq!(config.connection_limit, Some(3));
            assert_eq!(config.address, listen());
        }
        other => panic!("unexpected: {:?}", other),
    }
    assert!(matches!(SocketConfig::from(udp()).mode, Mode::Udp(_)));
}

#[test]
fn basic_tcp_config_listens_at_the_address() {
    let config = SocketConfig::make_basic_tcp_config(addr());
    assert_eq!(
        config.resources(),
        vec![Resource::Port(addr(), Protocol::Tcp)]
    );
    let plan = tcp_plan(&config);
    assert!(plan.tls_config.is_none());
    assert!(plan.tls_for_server);
    assert!(matches!(
        plan.decoder.framing,
        Framing::NewlineDelimited {
            max_length: 102_400
        }
    ));
}

#[test]
fn stream_modes_refuse_max_length_beside_framing() {
    let mut config = tcp();
    config.framing = Some(FramingConfig::NewlineDelimited {
        max_length: Some(10),
    });
    let error = SocketConfig::from(config).build(&QUIET).unwrap_err();
    assert!(matches!(error, ComponentError::MaxLengthWithFraming));
    assert_eq!(
        error.message(),
        "Using `max_length` is deprecated and does not have any effect when framing is provided. Configure `max_length` on the framing config instead."
    );

    let mut config = unix();
    config.framing = Some(FramingConfig::MessageBased);
    config.max_length = Some(10);
    let stream = SocketConfig {
        mode: Mode::UnixStream(config.clone()),
    };
    assert!(matches!(
        stream.build(&QUIET),
        Err(ComponentError::MaxLengthWithFraming)
    ));
    let datagram = SocketConfig {
        mode: Mode::UnixDatagram(config),
    };
    assert!(matches!(
        datagram.build(&QUIET),
        Ok(BuildStep::UnixDatagram(_))
    ));
}

#[test]
fn tcp_framing() {
    let mut config = tcp();
    config.max_length = None;
    config.framing = Some(FramingConfig::NewlineDelimited {
        max_length: Some(10),
    });
    let configured = SocketConfig::from(config.clone());
    assert!(matches!(
        tcp_plan(&configured).decoder.framing,
        Framing::Configured(FramingConfig::NewlineDelimited {
            max_length: Some(10)
        })
    ));

    config.framing = None;
    config.decoding = json();
    let default = SocketConfig::from(config.clone());
    match tcp_plan(&default).decoder.framing {
        Framing::StreamDefault(DeserializerConfig::Settings(settings)) => {
            assert_eq!(settings["codec"].as_str(), Some("json"))
        }
        other => panic!("unexpected: {:?}", other),
    }

    config.max_length = Some(12);
    let limited = SocketConfig::from(config);
    assert!(matches!(
        tcp_plan(&limited).decoder.framing,
        Framing::NewlineDelimited { max_length: 12 }
    ));
}

#[test]
fn default_framing() {
    assert!(matches!(
        SocketConfig::from(udp()).build(&QUIET),
        Ok(BuildStep::Udp(source)) if matches!(
            source.decoder.framing,
            Framing::Configured(FramingConfig::MessageBased)
        )
    ));
    let datagram = SocketConfig {
        mode: Mode::UnixDatagram(unix()),
    };
    assert!(matches!(
        datagram.build(&QUIET),
        Ok(BuildStep::UnixDatagram(source)) if matches!(
            source.decoder.framing,
            Framing::MessageDefault
        )
    ));
    let stream = SocketConfig {
        mode: Mode::UnixStream(unix()),
    };
    assert!(matches!(
        stream.build(&QUIET),
        Ok(BuildStep::UnixStream(source)) if matches!(
            source.decoder.framing,
            Framing::NewlineDelimited { max_length: 102_400 }
        )
    ));
}

#[test]
fn udp_and_unix_framing() {
    let mut config = udp();
    config.framing = FramingConfig::CharacterDelimited {
        delimiter: b',',
        max_length: None,
    };
    match SocketConfig::from(config).build(&QUIET) {
        Ok(BuildStep::Udp(source)) => {
            assert!(matches!(
                source.decoder.framing,
                Framing::Configured(FramingConfig::CharacterDelimited {
                    delimiter: b',',
                    max_length: None
                })
            ));
            assert_eq!(source.decoder.log_namespace, LogNamespace::Legacy);
            assert_eq!(source.config.max_length, 11);
        }
        other => panic!("unexpected: {:?}", other),
    }

    let mut config = unix();
    config.max_length = Some(10);
    let datagram = SocketConfig {
        mode: Mode::UnixDatagram(config.clone()),
    };
    match datagram.build(&QUIET) {
        Ok(BuildStep::UnixDatagram(source)) => {
            assert!(matches!(source.decoder.framing, Framing::MessageDefault))
        }
        other => panic!("unexpected: {:?}", other),
    }
    let stream = SocketConfig {
        mode: Mode::UnixStream(config),
    };
    match stream.build(&QUIET) {
        Ok(BuildStep::UnixStream(source)) => assert!(matches!(
            source.decoder.framing,
            Framing::NewlineDelimited { max_length: 10 }
        )),
        other => panic!("unexpected: {:?}", other),
    }
}

#[test]
fn tls_settings_decide_whether_tcp_runs() {
    let mut config = tcp();
    config.shutdown_timeout_secs = 1;
    config.receive_buffer_bytes = Some(5);
    config.connection_limit = Some(6);
    config.keepalive = Some(toml::from_str("time_secs = 60").unwrap());
    config.tls = Some(TlsSourceConfig {
        tls_config: toml::from_str("enabled = true").unwrap(),
        client_metadata_key: Some("tls_peer".to_string()),
    });
    let config = SocketConfig::from(config);

    let plan = tcp_plan(&config);
    assert_eq!(
        plan.tls_config,
        Some(&toml::from_str("enabled = true").unwrap())
    );
    let source = plan.complete(Ok("loaded")).unwrap();
    assert_eq!(source.tls, "loaded");
    assert_eq!(source.address, listen());
    assert_eq!(source.shutdown_timeout_secs, 1);
    assert_eq!(source.receive_buffer_bytes, Some(5));
    assert_eq!(source.connection_limit, Some(6));
    assert_eq!(
        source.keepalive,
        Some(&toml::from_str("time_secs = 60").unwrap())
    );
    assert_eq!(
        source.tls_client_metadata_key,
        Some(&"tls_peer".to_string())
    );
    assert!(!source.acknowledgements);
    assert!(!config.can_acknowledge());

    let plan = tcp_plan(&config);
    match plan.complete::<()>(Err("no such file".to_string())) {
        Err(error) => assert_eq!(error.message(), "no such file"),
        other => panic!("unexpected: {:?}", other),
    }
}

#[test]
fn namespace_of_the_built_source() {
    for (own, pipeline, expected) in [
        (None, None, LogNamespace::Legacy),
        (None, Some(false), LogNamespace::Legacy),
        (None, Some(true), LogNamespace::Vector),
        (Some(false), Some(true), LogNamespace::Legacy),
        (Some(true), None, LogNamespace::Vector),
        (Some(true), Some(false), LogNamespace::Vector),
    ] {
        let cx = SourceContext {
            schema_log_namespace: pipeline,
        };
        let mut tcp = tcp();
        tcp.log_namespace = own;
        match SocketConfig::from(tcp).build(&cx) {
            Ok(BuildStep::LoadTls(plan)) => {
                assert_eq!(plan.log_namespace, expected);
                assert_eq!(plan.decoder.log_namespace, LogNamespace::Legacy);
            }
            other => panic!("unexpected: {:?}", other),
        }
        let mut unix = unix();
        unix.log_namespace = own;
        let config = SocketConfig {
            mode: Mode::UnixStream(unix),
        };
        match config.build(&cx) {
            Ok(BuildStep::UnixStream(source)) => assert_eq!(source.log_namespace, expected),
            other => panic!("unexpected: {:?}", other),
        }
    }
}

#[test]
fn output_namespace_is_the_source_s_own() {
    for global in [LogNamespace::Vector, LogNamespace::Legacy] {
        for (own, expected) in [
            (None, LogNamespace::Legacy),
            (Some(false), LogNamespace::Legacy),
            (Some(true), LogNamespace::Vector),
        ] {
            let mut config = udp();
            config.log_namespace = own;
            let config = SocketConfig::from(config);
            assert_eq!(config.log_namespace(), expected);
            let outputs = config.outputs(global, &schema());
            assert_eq!(outputs.len(), 1);
            assert_eq!(outputs[0].schema_definition.log_namespace, expected);
        }
    }
    assert_eq!(LogNamespace::Vector.merge(None), LogNamespace::Vector);
}

#[test]
fn network_modes_announce_host_and_port() {
    let mut config = tcp();
    config.host_key = Some("peer.host".to_string());
    config.decoding = json();
    let config = SocketConfig::from(config);
    assert!(matches!(
        config.decoding(),
        DeserializerConfig::Settings(_)
    ));
    let outputs = config.outputs(LogNamespace::Legacy, &schema());
    assert!(matches!(
        outputs[0].decoding,
        DeserializerConfig::Settings(_)
    ));
    let definition = &outputs[0].schema_definition;
    assert!(definition.standard_source_metadata);
    assert_eq!(definition.source_metadata.len(), 2);

    let host = &definition.source_metadata[0];
    assert_eq!(host.source_name, SocketConfig::NAME);
    assert_eq!(host.source_name, "socket");
    assert_eq!(host.vector_path.segments, vec!["host"]);
    assert_eq!(host.kind, Kind::Bytes);
    assert_eq!(host.meaning, None);
    match &host.legacy_path {
        Some(LegacyKey::InsertIfEmpty(path)) => assert_eq!(path.segments, vec!["peer.host"]),
        other => panic!("unexpected: {:?}", other),
    }

    let port = &definition.source_metadata[1];
    assert_eq!(port.source_name, "socket");
    assert_eq!(port.vector_path.segments, vec!["port"]);
    assert_eq!(port.kind, Kind::Integer);
    assert!(port.legacy_path.is_none());
}

#[test]
fn unix_modes_announce_the_host_alone() {
    let mut config = unix();
    config.host_key = Some("h".to_string());
    for mode in [
        Mode::UnixDatagram(config.clone()),
        Mode::UnixStream(config.clone()),
    ] {
        let config = SocketConfig { mode };
        let outputs = config.outputs(LogNamespace::Legacy, &schema());
        let metadata = &outputs[0].schema_definition.source_metadata;
        assert_eq!(metadata.len(), 1);
        assert_eq!(metadata[0].vector_path.segments, vec!["host"]);
        assert!(matches!(
            &metadata[0].legacy_path,
            Some(LegacyKey::InsertIfEmpty(path)) if path.segments == vec!["h"]
        ));
    }
}

#[test]
fn resources_of_each_mode() {
    assert_eq!(
        SocketConfig::from(tcp()).resources(),
        vec![Resource::Port(addr(), Protocol::Tcp)]
    );
    assert_eq!(
        SocketConfig::from(udp()).resources(),
        vec![Resource::Port(addr(), Protocol::Udp)]
    );
    for mode in [Mode::UnixDatagram(unix()), Mode::UnixStream(unix())] {
        assert_eq!(SocketConfig { mode }.resources(), vec![]);
    }

    let fd = SocketListenAddr::SystemdFd(2);
    assert_eq!(fd.as_tcp_resource(), Resource::SystemFdOffset(2));
    assert_eq!(fd.as_tcp_resource(), fd.as_udp_resource());
    assert_ne!(listen().as_tcp_resource(), listen().as_udp_resource());
}

#[test]
fn read_configurations_can_still_be_refused() {
    let both = "max_length = 10\nframing = { method = \"bytes\" }";
    for (head, refused) in [
        ("mode = \"tcp\"\naddress = \"127.0.0.1:1\"", true),
        ("mode = \"unix_stream\"\npath = \"p\"", true),
        ("mode = \"udp\"\naddress = \"127.0.0.1:1\"", false),
        ("mode = \"unix_datagram\"\npath = \"p\"", false),
    ] {
        let config = read(&format!("{}\n{}", head, both)).unwrap();
        assert_eq!(config.build(&QUIET).is_err(), refused);
        let config = read(&format!("{}\nmax_length = 10", head)).unwrap();
        assert!(config.build(&QUIET).is_ok());
    }
}

#[test]
fn the_port_is_an_integer_in_both_network_modes() {
    let mut with_key = udp();
    with_key.port_key = Some("from_port".to_string());
    for config in [
        SocketConfig::from(tcp()),
        SocketConfig::from(udp()),
        SocketConfig::from(with_key),
    ] {
        let outputs = config.outputs(LogNamespace::Vector, &schema());
        let metadata = &outputs[0].schema_definition.source_metadata;
        assert_eq!(metadata[0].kind, Kind::Bytes);
        assert_eq!(metadata[1].vector_path.segments, vec!["port"]);
        assert_eq!(metadata[1].kind, Kind::Integer);
    }
}
