//! How the bytes of a socket become events: framing cuts them into frames, and
//! a deserializer reads each frame.

use crate::namespace::LogNamespace;
use vstd::prelude::*;

verus! {

/// The maximum length of a message where nothing else is said: 100 KiB.
pub const DEFAULT_MAX_LENGTH: usize = 102_400;

/// A framing as it is configured.
#[derive(Clone, Debug)]
pub enum FramingConfig {
    /// Every message that the socket delivers is a frame.
    MessageBased,
    /// Frames end with a newline; those above the maximum length are dropped.
    NewlineDelimited { max_length: Option<usize> },
    /// Frames end with `delimiter`; those above the maximum length are dropped.
    CharacterDelimited { delimiter: u8, max_length: Option<usize> },
    /// The settings of a framing, which the codec layer reads.
    Settings(toml::Value),
}

/// A deserializer as it is configured.
#[derive(Clone, Debug)]
pub enum DeserializerConfig {
    /// The bytes of a frame are the message.
    Bytes,
    /// The settings of a deserializer, which the codec layer reads.
    Settings(toml::Value),
}

/// The framing that a source uses.
#[derive(Debug)]
pub enum Framing<'a> {
    /// The framing that the configuration gives.
    Configured(&'a FramingConfig),
    /// Frames end with a newline and have at most `max_length` bytes.
    NewlineDelimited { max_length: usize },
    /// The framing that goes with the deserializer on a stream of bytes.
    StreamDefault(&'a DeserializerConfig),
    /// The framing for sockets that deliver whole messages.
    MessageDefault,
}

/// What a framing comes down to, however it was arrived at.
pub enum EffectiveFraming {
    /// A framing that is known.
    Given(FramingConfig),
    /// The framing that goes with the deserializer on a stream of bytes.
    StreamDefault(DeserializerConfig),
}

impl<'a> Framing<'a> {
    /// The framing itself: a maximum length makes a newline-delimited framing
    /// with that length, and sockets that deliver whole messages are framed
    /// message by message.
    pub open spec fn effective(self) -> EffectiveFraming {
        match self {
            Framing::Configured(framing) => EffectiveFraming::Given(*framing),
            Framing::NewlineDelimited { max_length } => EffectiveFraming::Given(
                FramingConfig::NewlineDelimited { max_length: Some(max_length) },
            ),
            Framing::StreamDefault(decoding) => EffectiveFraming::StreamDefault(*decoding),
            Framing::MessageDefault => EffectiveFraming::Given(FramingConfig::MessageBased),
        }
    }
}

/// What a decoder is made from.
#[derive(Debug)]
pub struct DecodingConfig<'a> {
    pub framing: Framing<'a>,
    pub decoding: &'a DeserializerConfig,
    pub log_namespace: LogNamespace,
}

impl<'a> DecodingConfig<'a> {
    pub fn new(
        framing: Framing<'a>,
        decoding: &'a DeserializerConfig,
        log_namespace: LogNamespace,
    ) -> (config: Self)
        ensures
            config == (DecodingConfig { framing, decoding, log_namespace }),
    {
        DecodingConfig { framing, decoding, log_namespace }
    }
}

/// A decoder is made from what it is given.
pub proof fn law_decoding_config<'a>(
    framing: Framing<'a>,
    decoding: &'a DeserializerConfig,
    log_namespace: LogNamespace,
    config: DecodingConfig<'a>,
)
    requires
        call_ensures(DecodingConfig::new, (framing, decoding, log_namespace), config),
    ensures
        config.framing == framing,
        *config.decoding == *decoding,
        config.log_namespace == log_namespace,
{
}

} // verus!
