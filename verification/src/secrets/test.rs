//! The `test` secrets backend: every secret has the same, fixed value.

use crate::error::Result;
use crate::toml_value::{
    document_entries, document_text, is_plain_document, parse_plain_document, toml_as_str,
    toml_get, toml_is_table, toml_view, PlainLine, TomlView,
};
use vstd::hash_map::StringHashMap;
use vstd::prelude::*;

verus! {

/// Configuration for the `test` secrets backend.
#[derive(Clone, Debug)]
pub struct TestBackend {
    /// Fixed value to replace all secrets with.
    pub replacement: String,
}

/// Why a value is not a configuration of the backend.
#[derive(Clone, Copy, Debug, PartialEq, Eq, Structural)]
pub enum ReadError {
    /// The value is no table.
    NotATable,
    /// There is no replacement.
    MissingReplacement,
    /// The replacement is no string.
    InvalidReplacement,
}

/// The replacement that a configuration gives, or why it gives none.
pub open spec fn configured_replacement(value: TomlView) -> core::result::Result<
    Seq<char>,
    ReadError,
> {
    match value {
        TomlView::Table(entries) => if !entries.contains_key("replacement"@) {
            Err(ReadError::MissingReplacement)
        } else {
            match entries["replacement"@] {
                TomlView::String(text) => Ok(text),
                _ => Err(ReadError::InvalidReplacement),
            }
        },
        _ => Err(ReadError::NotATable),
    }
}

/// The entries of the configuration of the default backend.
pub open spec fn generated_entries() -> Map<Seq<char>, TomlView> {
    Map::empty().insert("replacement"@, TomlView::String(Seq::empty()))
}

/// `keys` has `key` among them.
pub open spec fn requests(keys: Seq<String>, key: Seq<char>) -> bool {
    exists|i: int| 0 <= i < keys.len() && (#[trigger] keys[i])@ == key
}

/// What retrieving `keys` yields when `replacement` stands for every secret:
/// exactly the requested keys, each with that value.
pub open spec fn replaced(keys: Seq<String>, replacement: String) -> Map<Seq<char>, String> {
    Map::new(
        |key: Seq<char>| requests(keys, key),
        |key: Seq<char>| replacement,
    )
}

impl Default for TestBackend {
    fn default() -> (backend: Self)
        ensures
            backend.replacement@ == Seq::<char>::empty(),
    {
        TestBackend { replacement: String::new() }
    }
}

impl TestBackend {
    /// The name of the component.
    pub const NAME: &'static str = "test";

    /// Reads a configuration. Entries beside the replacement are ignored, by choice
    /// of this reader.
    pub fn from_value(value: &toml::Value) -> (backend: core::result::Result<Self, ReadError>)
        ensures
            match backend {
                Ok(backend) => configured_replacement(toml_view(*value)) == Ok::<_, ReadError>(
                    backend.replacement@,
                ),
                Err(error) => configured_replacement(toml_view(*value)) == Err::<Seq<char>, _>(
                    error,
                ),
            },
    {
        if !toml_is_table(value) {
            return Err(ReadError::NotATable);
        }
        match toml_get(value, "replacement") {
            None => Err(ReadError::MissingReplacement),
            Some(entry) => match toml_as_str(entry) {
                Some(text) => Ok(TestBackend { replacement: text.to_string() }),
                None => Err(ReadError::InvalidReplacement),
            },
        }
    }

    /// The configuration of the default backend.
    pub fn generate_config() -> (config: toml::Value)
        ensures
            toml_view(config) == TomlView::Table(generated_entries()),
    {
        proof {
            lemma_default_text();
        }
        parse_plain_document("replacement = \"\"\n").unwrap()
    }

    /// Resolves every key of `secret_keys` to the replacement value. This never
    /// fails and leaves the backend as it was.
    pub fn retrieve(&mut self, secret_keys: Vec<String>) -> (secrets: Result<
        StringHashMap<String>,
    >)
        ensures
            *final(self) == *old(self),
            secrets is Ok,
            secrets->Ok_0@ == replaced(secret_keys@, old(self).replacement),
    {
        let mut secrets: StringHashMap<String> = StringHashMap::new();
        let mut i: usize = 0;
        assert(secrets@ =~= replaced(secret_keys@.take(0), self.replacement));
        while i < secret_keys.len()
            invariant
                i <= secret_keys.len(),
                *self == *old(self),
                secrets@ == replaced(secret_keys@.take(i as int), self.replacement),
            decreases secret_keys.len() - i,
        {
            secrets.insert(secret_keys[i].clone(), self.replacement.clone());
            proof {
                lemma_replaced_push(secret_keys@.take(i as int), secret_keys@[i as int], self.replacement);
                assert(secret_keys@.take(i + 1) =~= secret_keys@.take(i as int).push(secret_keys@[i as int]));
            }
            i = i + 1;
        }
        assert(secret_keys@.take(i as int) =~= secret_keys@);
        Ok(secrets)
    }
}

/// The generated configuration is that of the default backend, whose replacement
/// is empty.
pub proof fn law_generated_config_is_read()
    ensures
        configured_replacement(TomlView::Table(generated_entries())) == Ok::<_, ReadError>(
            Seq::<char>::empty(),
        ),
{
}

/// A configuration is read exactly if it is a table with a string for the
/// replacement, and the replacement is that string; otherwise the complaint says
/// which of these fails.
pub proof fn law_replacement_is_read(value: TomlView, entries: Map<Seq<char>, TomlView>, text: Seq<char>)
    ensures
        configured_replacement(value) == Err::<Seq<char>, _>(ReadError::NotATable) <==> !(
        value is Table),
        configured_replacement(TomlView::Table(entries)) == Err::<Seq<char>, _>(
            ReadError::MissingReplacement,
        ) <==> !entries.contains_key("replacement"@),
        configured_replacement(TomlView::Table(entries)) == Err::<Seq<char>, _>(
            ReadError::InvalidReplacement,
        ) <==> (entries.contains_key("replacement"@) && !(entries["replacement"@] is String)),
        configured_replacement(TomlView::Table(entries)) == Ok::<_, ReadError>(text) <==> (
        entries.contains_key("replacement"@) && entries["replacement"@] == TomlView::String(text)),
{
}

/// Each key of the list, wherever it stands, is answered with the replacement, and
/// every answer is to a key of the list.
pub proof fn law_every_key_is_answered(keys: Seq<String>, replacement: String)
    ensures
        forall|i: int|
            0 <= i < keys.len() ==> replaced(keys, replacement).contains_key(
                (#[trigger] keys[i])@,
            ) && replaced(keys, replacement)[keys[i]@] == replacement,
        forall|key: Seq<char>| #[trigger]
            replaced(keys, replacement).contains_key(key) ==> exists|i: int|
                0 <= i < keys.len() && (#[trigger] keys[i])@ == key,
{
}

/// Every requested key, and no other, is answered with the replacement.
pub proof fn law_requested_keys(keys: Seq<String>, replacement: String, key: Seq<char>)
    ensures
        replaced(keys, replacement).contains_key(key) <==> requests(keys, key),
        replaced(keys, replacement).contains_key(key) ==> replaced(keys, replacement)[key]
            == replacement,
{
}

/// Neither the order of the keys nor how often one is requested matters.
pub proof fn law_order_and_repetition(one: Seq<String>, other: Seq<String>, replacement: String)
    requires
        forall|key: Seq<char>|
            #![trigger requests(one, key)]
            #![trigger requests(other, key)]
            requests(one, key) <==> requests(other, key),
    ensures
        replaced(one, replacement) == replaced(other, replacement),
{
    assert(replaced(one, replacement) =~= replaced(other, replacement));
}

/// Requesting two lists at once yields what requesting them one after the other
/// does.
pub proof fn law_retrieved_together(one: Seq<String>, other: Seq<String>, replacement: String)
    ensures
        replaced(one + other, replacement) == replaced(one, replacement).union_prefer_right(
            replaced(other, replacement),
        ),
{
    let together = replaced(one + other, replacement);
    let apart = replaced(one, replacement).union_prefer_right(replaced(other, replacement));
    assert forall|key: Seq<char>| together.contains_key(key) <==> apart.contains_key(key) by {
        if replaced(one, replacement).contains_key(key) {
            let i = choose|i: int| 0 <= i < one.len() && (#[trigger] one[i])@ == key;
            assert((one + other)[i]@ == key);
        }
        if replaced(other, replacement).contains_key(key) {
            let i = choose|i: int| 0 <= i < other.len() && (#[trigger] other[i])@ == key;
            assert((one + other)[one.len() + i]@ == key);
        }
        if together.contains_key(key) {
            let i = choose|i: int|
                0 <= i < (one + other).len() && (#[trigger] (one + other)[i])@ == key;
            if i < one.len() {
                assert(one[i]@ == key);
            } else {
                assert(other[i - one.len()]@ == key);
            }
        }
    }
    assert(together =~= apart);
}

/// There are at most as many answers as requests.
pub proof fn law_answers_are_bounded(keys: Seq<String>, replacement: String)
    ensures
        replaced(keys, replacement).dom().finite(),
        replaced(keys, replacement).len() <= keys.len(),
    decreases keys.len(),
{
    if keys.len() == 0 {
        assert(replaced(keys, replacement) =~= Map::empty());
    } else {
        law_answers_are_bounded(keys.drop_last(), replacement);
        lemma_replaced_push(keys.drop_last(), keys.last(), replacement);
        assert(keys.drop_last().push(keys.last()) =~= keys);
    }
}

proof fn lemma_default_text()
    ensures
        ({
            let lines = seq![PlainLine { key: "replacement"@, value: Seq::empty() }];
            &&& is_plain_document(lines)
            &&& "replacement = \"\"\n"@ == document_text(lines)
            &&& document_entries(lines) == generated_entries()
        }),
{
    reveal_strlit("replacement");
    reveal_strlit("replacement = \"\"\n");
    reveal_with_fuel(document_text, 2);
    reveal_with_fuel(document_entries, 2);
    let lines = seq![PlainLine { key: "replacement"@, value: Seq::empty() }];
    assert(lines.drop_last() =~= Seq::<PlainLine>::empty());
    assert("replacement = \"\"\n"@ =~= document_text(lines));
}

proof fn lemma_replaced_push(keys: Seq<String>, key: String, replacement: String)
    ensures
        replaced(keys.push(key), replacement) == replaced(keys, replacement).insert(key@, replacement),
{
    let longer = replaced(keys.push(key), replacement);
    let inserted = replaced(keys, replacement).insert(key@, replacement);
    assert forall|k: Seq<char>| longer.contains_key(k) <==> inserted.contains_key(k) by {
        if inserted.contains_key(k) {
            if k == key@ {
                assert(keys.push(key)[keys.len() as int]@ == k);
            } else {
                let i = choose|i: int| 0 <= i < keys.len() && (#[trigger] keys[i])@ == k;
                assert(keys.push(key)[i]@ == k);
            }
        }
        if longer.contains_key(k) && k != key@ {
            let i = choose|i: int| 0 <= i < keys.push(key).len() && (#[trigger] keys.push(key)[i])@ == k;
            assert(keys[i]@ == k);
        }
    }
    assert(longer =~= inserted);
}

/// What a configuration is read as: the backend with the string under
/// `replacement`, which every table that has one gives.
pub proof fn law_read(
    value: toml::Value,
    backend: core::result::Result<TestBackend, ReadError>,
)
    requires
        call_ensures(TestBackend::from_value, (&value,), backend),
    ensures
        match toml_view(value) {
            TomlView::Table(entries) => match backend {
                Ok(backend) => entries.contains_key("replacement"@) && entries["replacement"@]
                    == TomlView::String(backend.replacement@),
                Err(ReadError::NotATable) => false,
                Err(ReadError::MissingReplacement) => !entries.contains_key("replacement"@),
                Err(ReadError::InvalidReplacement) => entries.contains_key("replacement"@) && !(
                entries["replacement"@] is String),
            },
            _ => backend == Err::<TestBackend, _>(ReadError::NotATable),
        },
{
}

/// The generated configuration is read as the default backend.
pub proof fn law_generated_is_default(
    config: toml::Value,
    backend: core::result::Result<TestBackend, ReadError>,
    default: TestBackend,
)
    requires
        call_ensures(TestBackend::generate_config, (), config),
        call_ensures(TestBackend::from_value, (&config,), backend),
        call_ensures(<TestBackend as Default>::default, (), default),
    ensures
        backend is Ok,
        backend->Ok_0.replacement@ == default.replacement@,
        default.replacement@.len() == 0,
{
}

/// A call that retrieves secrets answers every key of the list with the
/// replacement of the backend, and no other key, and leaves the backend as it was.
pub proof fn law_retrieved(
    backend: &mut TestBackend,
    keys: Vec<String>,
    secrets: Result<StringHashMap<String>>,
)
    requires
        call_ensures(TestBackend::retrieve, (backend, keys), secrets),
    ensures
        secrets is Ok,
        *final(backend) == *old(backend),
        forall|i: int|
            0 <= i < keys@.len() ==> secrets->Ok_0@.contains_key((#[trigger] keys@[i])@)
                && secrets->Ok_0@[keys@[i]@] == old(backend).replacement,
        forall|key: Seq<char>| #[trigger]
            secrets->Ok_0@.contains_key(key) ==> exists|i: int|
                0 <= i < keys@.len() && (#[trigger] keys@[i])@ == key,
{
}

} // verus!
