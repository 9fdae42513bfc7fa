//! The example configuration of the `socket` source.

use super::entries::{Field, ReadError};
use super::laws::law_generated_config_is_read;
use super::tcp::TcpConfig;
use super::{Mode, SocketConfig};
use crate::net::SocketListenAddr;
use crate::toml_value::{
    document_entries, document_text, is_in_key_order, is_plain_document, parse_plain_document,
    precedes, toml_view, write_plain_table, PlainLine, TomlView,
};
use vstd::prelude::*;

verus! {

/// The entries of the example configuration: TCP, on port 9000 of every address.
pub open spec fn generated_entries() -> Map<Seq<char>, TomlView> {
    Map::empty().insert("mode"@, TomlView::String("tcp"@)).insert(
        "address"@,
        TomlView::String("0.0.0.0:9000"@),
    )
}

/// The lines of the example configuration as it is written, in the order of their
/// keys.
pub open spec fn written_lines() -> Seq<PlainLine> {
    seq![
        PlainLine { key: "address"@, value: "0.0.0.0:9000"@ },
        PlainLine { key: "mode"@, value: "tcp"@ },
    ]
}

impl SocketConfig {
    /// An example of a configuration of the source.
    pub fn generate_config() -> (config: toml::Value)
        ensures
            toml_view(config) == TomlView::Table(generated_entries()),
    {
        proof {
            lemma_generated_text();
        }
        parse_plain_document("mode = \"tcp\"\naddress = \"0.0.0.0:9000\"\n").unwrap()
    }

    /// The example configuration as it is written.
    pub fn generate_config_text() -> (text: String)
        ensures
            text@ == "address = \"0.0.0.0:9000\"\nmode = \"tcp\"\n"@,
    {
        let config = SocketConfig::generate_config();
        proof {
            lemma_written_text();
        }
        write_plain_table(&config).unwrap()
    }

    /// Reads the example configuration from the text that is written of it.
    /// `address` is the listen address that `0.0.0.0:9000` denotes. The
    /// configuration is that of a TCP source at this address, with nothing else
    /// configured.
    pub fn reread_generated_config(address: Option<SocketListenAddr>) -> (config: Result<
        SocketConfig,
        ReadError,
    >)
        ensures
            match address {
                Some(address) => config is Ok && config->Ok_0.mode == Mode::Tcp(
                    TcpConfig { max_length: None, ..TcpConfig::basic(address) },
                ),
                None => config == Err::<SocketConfig, ReadError>(
                    ReadError::Invalid(Field::Address),
                ),
            },
    {
        let text = SocketConfig::generate_config_text();
        proof {
            lemma_written_text();
        }
        let config = parse_plain_document(text.as_str()).unwrap();
        proof {
            law_generated_config_is_read(address->0);
        }
        SocketConfig::from_value(&config, address)
    }
}

spec fn generated_lines() -> Seq<PlainLine> {
    seq![
        PlainLine { key: "mode"@, value: "tcp"@ },
        PlainLine { key: "address"@, value: "0.0.0.0:9000"@ },
    ]
}

proof fn lemma_generated_text()
    ensures
        is_plain_document(generated_lines()),
        "mode = \"tcp\"\naddress = \"0.0.0.0:9000\"\n"@ == document_text(generated_lines()),
        document_entries(generated_lines()) == generated_entries(),
{
    reveal_strlit("mode = \"tcp\"\naddress = \"0.0.0.0:9000\"\n");
    reveal_strlit("mode");
    reveal_strlit("tcp");
    reveal_strlit("address");
    reveal_strlit("0.0.0.0:9000");
    reveal_with_fuel(document_text, 3);
    reveal_with_fuel(document_entries, 3);
    let lines = generated_lines();
    assert("mode"@ != "address"@) by {
        assert("mode"@.len() == 4);
    }
    assert(lines.drop_last() =~= seq![lines[0]]);
    assert(lines.drop_last().drop_last() =~= Seq::<PlainLine>::empty());
    assert("mode = \"tcp\"\naddress = \"0.0.0.0:9000\"\n"@ =~= document_text(lines));
}

pub(crate) proof fn lemma_written_text()
    ensures
        is_plain_document(written_lines()),
        is_in_key_order(written_lines()),
        "address = \"0.0.0.0:9000\"\nmode = \"tcp\"\n"@ == document_text(written_lines()),
        document_entries(written_lines()) == generated_entries(),
{
    reveal_strlit("address = \"0.0.0.0:9000\"\nmode = \"tcp\"\n");
    reveal_strlit("mode");
    reveal_strlit("tcp");
    reveal_strlit("address");
    reveal_strlit("0.0.0.0:9000");
    reveal_with_fuel(document_text, 3);
    reveal_with_fuel(document_entries, 3);
    let lines = written_lines();
    lemma_generated_text();
    assert(precedes("address"@, "mode"@));
    assert(lines.drop_last() =~= seq![lines[0]]);
    assert(lines.drop_last().drop_last() =~= Seq::<PlainLine>::empty());
    assert("address = \"0.0.0.0:9000\"\nmode = \"tcp\"\n"@ =~= document_text(lines));
    assert(document_entries(lines) =~= generated_entries());
}

} // verus!
