//! Reading single entries of a TOML table.

use crate::toml_value::{
    toml_as_bool, toml_as_integer, toml_as_str, toml_get, toml_is_table, toml_view, TomlView,
};
use vstd::prelude::*;

verus! {

/// An entry of the configuration.
#[derive(Clone, Copy, Debug, PartialEq, Eq, Structural)]
pub enum Field {
    Mode,
    Address,
    Path,
    SocketFileMode,
    Keepalive,
    MaxLength,
    ShutdownTimeoutSecs,
    HostKey,
    PortKey,
    Tls,
    TlsClientMetadataKey,
    ReceiveBufferBytes,
    Framing,
    Decoding,
    ConnectionLimit,
    LogNamespace,
}

/// Why a value is not a configuration of the source.
#[derive(Clone, Copy, Debug, PartialEq, Eq, Structural)]
pub enum ReadError {
    /// The value is no table.
    NotATable,
    /// A required entry is not there.
    Missing(Field),
    /// An entry is not of the right type, or out of range.
    Invalid(Field),
    /// There is no mode of that name.
    UnknownMode,
}

/// What a table has for a key, where a `T` is wanted.
pub enum Entry<T> {
    Absent,
    /// Something else than a `T`.
    Invalid,
    Present(T),
}

/// The entries of a table.
pub type Entries = Map<Seq<char>, TomlView>;

/// The entry of `key`, where a string is wanted.
pub open spec fn text_entry(entries: Entries, key: Seq<char>) -> Entry<Seq<char>> {
    if !entries.contains_key(key) {
        Entry::Absent
    } else {
        match entries[key] {
            TomlView::String(text) => Entry::Present(text),
            _ => Entry::Invalid,
        }
    }
}

/// The entry of `key`, where a number from zero to `max` is wanted.
pub open spec fn number_entry(entries: Entries, key: Seq<char>, max: int) -> Entry<int> {
    if !entries.contains_key(key) {
        Entry::Absent
    } else {
        match entries[key] {
            TomlView::Integer(number) => if 0 <= number <= max {
                Entry::Present(number as int)
            } else {
                Entry::Invalid
            },
            _ => Entry::Invalid,
        }
    }
}

/// The entry of `key`, where a number of bytes is wanted.
pub open spec fn size_entry(entries: Entries, key: Seq<char>) -> Entry<int> {
    number_entry(entries, key, usize::MAX as int)
}

/// The entry of `key`, where a truth value is wanted.
pub open spec fn truth_entry(entries: Entries, key: Seq<char>) -> Entry<bool> {
    if !entries.contains_key(key) {
        Entry::Absent
    } else {
        match entries[key] {
            TomlView::Boolean(truth) => Entry::Present(truth),
            _ => Entry::Invalid,
        }
    }
}

/// The entry of `key`, where a table is wanted.
pub open spec fn table_entry(entries: Entries, key: Seq<char>) -> Entry<Entries> {
    if !entries.contains_key(key) {
        Entry::Absent
    } else {
        match entries[key] {
            TomlView::Table(inner) => Entry::Present(inner),
            _ => Entry::Invalid,
        }
    }
}

/// The complaint about an entry that must be there.
pub open spec fn required<T>(entry: Entry<T>, field: Field) -> Option<ReadError> {
    match entry {
        Entry::Absent => Some(ReadError::Missing(field)),
        Entry::Invalid => Some(ReadError::Invalid(field)),
        Entry::Present(_) => None,
    }
}

/// The complaint about an entry that may be left out.
pub open spec fn optional<T>(entry: Entry<T>, field: Field) -> Option<ReadError> {
    match entry {
        Entry::Invalid => Some(ReadError::Invalid(field)),
        _ => None,
    }
}

/// `setting` is what `entry` says, or nothing if there is no such entry.
pub open spec fn text_is(setting: Option<String>, entry: Entry<Seq<char>>) -> bool {
    match entry {
        Entry::Present(text) => setting is Some && setting->0@ == text,
        _ => setting is None,
    }
}

/// `setting` holds the table `entry`, or nothing if there is no such entry.
pub open spec fn settings_are(setting: Option<toml::Value>, entry: Entry<Entries>) -> bool {
    match entry {
        Entry::Present(inner) => setting is Some && toml_view(setting->0) == TomlView::Table(inner),
        _ => setting is None,
    }
}

/// The size that `entry` says, or nothing if there is no such entry.
pub open spec fn size_of_entry(entry: Entry<int>) -> Option<usize> {
    match entry {
        Entry::Present(number) => Some(number as usize),
        _ => None,
    }
}

/// The `u32` that `entry` says, or nothing if there is no such entry.
pub open spec fn u32_of_entry(entry: Entry<int>) -> Option<u32> {
    match entry {
        Entry::Present(number) => Some(number as u32),
        _ => None,
    }
}

/// The truth value that `entry` says, or nothing if there is no such entry.
pub open spec fn truth_of_entry(entry: Entry<bool>) -> Option<bool> {
    match entry {
        Entry::Present(truth) => Some(truth),
        _ => None,
    }
}

/// The first of two complaints.
pub open spec fn first(one: Option<ReadError>, other: Option<ReadError>) -> Option<ReadError> {
    if one is Some {
        one
    } else {
        other
    }
}

pub(crate) fn read_text(table: &toml::Value, key: &str, field: Field) -> (text: Result<
    Option<String>,
    ReadError,
>)
    requires
        toml_view(*table) is Table,
    ensures
        ({
            let entry = text_entry(toml_view(*table)->Table_0, key@);
            match text {
                Ok(text) => optional(entry, field) is None && text_is(text, entry),
                Err(error) => optional(entry, field) == Some(error),
            }
        }),
{
    match toml_get(table, key) {
        None => Ok(None),
        Some(value) => match toml_as_str(value) {
            Some(text) => Ok(Some(text.to_string())),
            None => Err(ReadError::Invalid(field)),
        },
    }
}

pub(crate) fn read_required_text(table: &toml::Value, key: &str, field: Field) -> (text: Result<
    String,
    ReadError,
>)
    requires
        toml_view(*table) is Table,
    ensures
        ({
            let entry = text_entry(toml_view(*table)->Table_0, key@);
            match text {
                Ok(text) => required(entry, field) is None && text_is(Some(text), entry),
                Err(error) => required(entry, field) == Some(error),
            }
        }),
{
    match read_text(table, key, field)? {
        Some(text) => Ok(text),
        None => Err(ReadError::Missing(field)),
    }
}

pub(crate) fn read_number(table: &toml::Value, key: &str, field: Field, max: u64) -> (number: Result<
    Option<u64>,
    ReadError,
>)
    requires
        toml_view(*table) is Table,
    ensures
        ({
            let entry = number_entry(toml_view(*table)->Table_0, key@, max as int);
            match number {
                Ok(number) => optional(entry, field) is None && match entry {
                    Entry::Present(present) => number is Some && number->0 == present && present
                        <= max,
                    _ => number is None,
                },
                Err(error) => optional(entry, field) == Some(error),
            }
        }),
{
    match toml_get(table, key) {
        None => Ok(None),
        Some(value) => match toml_as_integer(value) {
            Some(number) => if number >= 0 && number as u64 <= max {
                Ok(Some(number as u64))
            } else {
                Err(ReadError::Invalid(field))
            },
            None => Err(ReadError::Invalid(field)),
        },
    }
}

pub(crate) fn read_size(table: &toml::Value, key: &str, field: Field) -> (size: Result<
    Option<usize>,
    ReadError,
>)
    requires
        toml_view(*table) is Table,
    ensures
        ({
            let entry = size_entry(toml_view(*table)->Table_0, key@);
            match size {
                Ok(size) => optional(entry, field) is None && size == size_of_entry(entry),
                Err(error) => optional(entry, field) == Some(error),
            }
        }),
{
    match read_number(table, key, field, usize::MAX as u64)? {
        Some(number) => Ok(Some(number as usize)),
        None => Ok(None),
    }
}

pub(crate) fn read_u32(table: &toml::Value, key: &str, field: Field) -> (number: Result<
    Option<u32>,
    ReadError,
>)
    requires
        toml_view(*table) is Table,
    ensures
        ({
            let entry = number_entry(toml_view(*table)->Table_0, key@, u32::MAX as int);
            match number {
                Ok(number) => optional(entry, field) is None && number == u32_of_entry(entry),
                Err(error) => optional(entry, field) == Some(error),
            }
        }),
{
    match read_number(table, key, field, u32::MAX as u64)? {
        Some(number) => Ok(Some(number as u32)),
        None => Ok(None),
    }
}

pub(crate) fn read_truth(table: &toml::Value, key: &str, field: Field) -> (truth: Result<
    Option<bool>,
    ReadError,
>)
    requires
        toml_view(*table) is Table,
    ensures
        ({
            let entry = truth_entry(toml_view(*table)->Table_0, key@);
            match truth {
                Ok(truth) => optional(entry, field) is None && truth == truth_of_entry(entry),
                Err(error) => optional(entry, field) == Some(error),
            }
        }),
{
    match toml_get(table, key) {
        None => Ok(None),
        Some(value) => match toml_as_bool(value) {
            Some(truth) => Ok(Some(truth)),
            None => Err(ReadError::Invalid(field)),
        },
    }
}

pub(crate) fn read_table(table: &toml::Value, key: &str, field: Field) -> (inner: Result<
    Option<toml::Value>,
    ReadError,
>)
    requires
        toml_view(*table) is Table,
    ensures
        ({
            let entry = table_entry(toml_view(*table)->Table_0, key@);
            match inner {
                Ok(inner) => optional(entry, field) is None && settings_are(inner, entry),
                Err(error) => optional(entry, field) == Some(error),
            }
        }),
{
    match toml_get(table, key) {
        None => Ok(None),
        Some(value) => if toml_is_table(value) {
            Ok(Some(value.clone()))
        } else {
            Err(ReadError::Invalid(field))
        },
    }
}

} // verus!
