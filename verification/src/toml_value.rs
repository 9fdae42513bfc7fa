//! TOML values as the configuration code reads them.
//!
//! Values are those of the `toml` crate. `toml_view` names what a value holds,
//! and the functions below tie the crate's accessors, its reader and its writer
//! to that name.

use vstd::prelude::*;

verus! {

/// `toml::Value`, which is opaque here but for its name `toml_view`.
#[verifier::external_type_specification]
#[verifier::external_body]
pub struct ExTomlValue(toml::Value);

/// `toml::de::Error`, of which nothing is known here.
#[verifier::external_type_specification]
#[verifier::external_body]
pub struct ExTomlError(toml::de::Error);

/// `toml::ser::Error`, of which nothing is known here.
#[verifier::external_type_specification]
#[verifier::external_body]
pub struct ExTomlWriteError(toml::ser::Error);

/// The data of a TOML value.
pub enum TomlView {
    String(Seq<char>),
    Integer(i64),
    /// A float, by its bits.
    Float(u64),
    Boolean(bool),
    /// A date, a time or both, by the text that denotes it.
    Datetime(Seq<char>),
    Array(Seq<TomlView>),
    Table(Map<Seq<char>, TomlView>),
}

/// What a TOML value holds.
pub uninterp spec fn toml_view(value: toml::Value) -> TomlView;

/// The derived `clone` of `toml::Value`: the copy holds what the value holds.
pub assume_specification[ <toml::Value as std::clone::Clone>::clone ](value: &toml::Value) -> (copy:
    toml::Value)
    ensures
        toml_view(copy) == toml_view(*value),
;

/// One line of a plain document: a key and a string.
pub struct PlainLine {
    pub key: Seq<char>,
    pub value: Seq<char>,
}

/// A key that TOML takes without quotes.
pub open spec fn is_bare_key(key: Seq<char>) -> bool {
    &&& key.len() > 0
    &&& forall|i: int|
        0 <= i < key.len() ==> {
            ||| 'a' <= #[trigger] key[i] <= 'z'
            ||| 'A' <= key[i] <= 'Z'
            ||| '0' <= key[i] <= '9'
            ||| key[i] == '-'
            ||| key[i] == '_'
        }
}

/// Text that stands for itself between double quotes: printable ASCII with
/// neither a double quote nor a backslash.
pub open spec fn is_plain_text(text: Seq<char>) -> bool {
    forall|i: int|
        0 <= i < text.len() ==> ' ' <= #[trigger] text[i] <= '~' && text[i] != '"' && text[i]
            != '\\'
}

/// The line as it is written: `key = "value"`.
pub open spec fn line_text(line: PlainLine) -> Seq<char> {
    line.key + seq![' ', '=', ' ', '"'] + line.value + seq!['"']
}

/// The lines one below the other, each ended by a newline.
pub open spec fn document_text(lines: Seq<PlainLine>) -> Seq<char>
    decreases lines.len(),
{
    if lines.len() == 0 {
        Seq::empty()
    } else {
        document_text(lines.drop_last()) + line_text(lines.last()) + seq!['\n']
    }
}

/// Lines that make up a document: keys and values need no quoting, and no key
/// comes twice.
pub open spec fn is_plain_document(lines: Seq<PlainLine>) -> bool {
    &&& forall|i: int|
        0 <= i < lines.len() ==> is_bare_key((#[trigger] lines[i]).key) && is_plain_text(
            lines[i].value,
        )
    &&& forall|i: int, j: int|
        0 <= i < j < lines.len() ==> (#[trigger] lines[i]).key != (#[trigger] lines[j]).key
}

/// `one` comes before `other` in the order of strings.
pub open spec fn precedes(one: Seq<char>, other: Seq<char>) -> bool
    decreases one.len(),
{
    &&& other.len() > 0
    &&& {
        ||| one.len() == 0
        ||| one[0] < other[0]
        ||| one[0] == other[0] && precedes(one.drop_first(), other.drop_first())
    }
}

/// Lines that come in the order of their keys.
pub open spec fn is_in_key_order(lines: Seq<PlainLine>) -> bool {
    forall|i: int, j: int|
        0 <= i < j < lines.len() ==> precedes((#[trigger] lines[i]).key, (#[trigger] lines[j]).key)
}

/// The entries that the lines define.
pub open spec fn document_entries(lines: Seq<PlainLine>) -> Map<Seq<char>, TomlView>
    decreases lines.len(),
{
    if lines.len() == 0 {
        Map::empty()
    } else {
        document_entries(lines.drop_last()).insert(
            lines.last().key,
            TomlView::String(lines.last().value),
        )
    }
}

/// `toml::from_str` on a document of plain lines. Such a document is valid TOML,
/// so it is read, as the table that has the entries of its lines. Other texts
/// are not covered.
#[verifier::external_body]
pub(crate) fn parse_plain_document(text: &str) -> (document: Result<toml::Value, toml::de::Error>)
    requires
        exists|lines: Seq<PlainLine>|
            is_plain_document(lines) && text@ == #[trigger] document_text(lines),
    ensures
        forall|lines: Seq<PlainLine>|
            is_plain_document(lines) && text@ == #[trigger] document_text(lines) ==> document is Ok
                && toml_view(document->Ok_0) == TomlView::Table(document_entries(lines)),
{
    toml::from_str(text)
}

/// `toml::to_string` on a table of plain strings under bare keys. It is written
/// as a document of plain lines, one for each entry, in the order of the keys:
/// the crate keeps a table sorted by them. Other values are not covered.
#[verifier::external_body]
pub(crate) fn write_plain_table(value: &toml::Value) -> (text: Result<String, toml::ser::Error>)
    requires
        exists|lines: Seq<PlainLine>|
            is_plain_document(lines) && is_in_key_order(lines) && toml_view(*value)
                == TomlView::Table(#[trigger] document_entries(lines)),
    ensures
        forall|lines: Seq<PlainLine>|
            is_plain_document(lines) && is_in_key_order(lines) && toml_view(*value)
                == TomlView::Table(#[trigger] document_entries(lines)) ==> text is Ok
                && text->Ok_0@ == document_text(lines),
{
    toml::to_string(value)
}

/// `toml::Value::get` with a string index: the entry of that key if the value is
/// a table that has it, and nothing otherwise.
#[verifier::external_body]
pub(crate) fn toml_get<'a>(value: &'a toml::Value, key: &str) -> (entry: Option<&'a toml::Value>)
    ensures
        match toml_view(*value) {
            TomlView::Table(entries) => match entry {
                Some(found) => entries.contains_key(key@) && toml_view(*found) == entries[key@],
                None => !entries.contains_key(key@),
            },
            _ => entry is None,
        },
{
    value.get(key)
}

/// `toml::Value::as_str`: the text of a string, and nothing for any other value.
#[verifier::external_body]
pub(crate) fn toml_as_str(value: &toml::Value) -> (text: Option<&str>)
    ensures
        match toml_view(*value) {
            TomlView::String(chars) => text is Some && text->0@ == chars,
            _ => text is None,
        },
{
    value.as_str()
}

/// `toml::Value::as_integer`: the number of an integer, and nothing for any other
/// value.
#[verifier::external_body]
pub(crate) fn toml_as_integer(value: &toml::Value) -> (number: Option<i64>)
    ensures
        number == match toml_view(*value) {
            TomlView::Integer(number) => Some(number),
            _ => None,
        },
{
    value.as_integer()
}

/// `toml::Value::as_bool`: the truth value of a boolean, and nothing for any
/// other value.
#[verifier::external_body]
pub(crate) fn toml_as_bool(value: &toml::Value) -> (truth: Option<bool>)
    ensures
        truth == match toml_view(*value) {
            TomlView::Boolean(truth) => Some(truth),
            _ => None,
        },
{
    value.as_bool()
}

/// `toml::Value::is_table`: whether the value is a table.
#[verifier::external_body]
pub(crate) fn toml_is_table(value: &toml::Value) -> (is_table: bool)
    ensures
        is_table == (toml_view(*value) is Table),
{
    value.is_table()
}

/// The text of a document determines its lines: no two documents are written
/// alike.
pub proof fn law_text_determines_lines(one: Seq<PlainLine>, other: Seq<PlainLine>)
    requires
        is_plain_document(one),
        is_plain_document(other),
        document_text(one) == document_text(other),
    ensures
        one == other,
    decreases one.len(),
{
    if one.len() > 0 && other.len() > 0 {
        let text = document_text(one);
        lemma_last_line(one.drop_last(), one.last(), text);
        lemma_last_line(other.drop_last(), other.last(), text);
        lemma_last_line_lengths(one, other, text);
        lemma_last_line_lengths(other, one, text);
        law_text_determines_lines(one.drop_last(), other.drop_last());
        assert(one =~= one.drop_last().push(one.last()));
        assert(other =~= other.drop_last().push(other.last()));
    } else {
        assert(one =~= other);
    }
}

/// Where the parts of the last line stand in a text.
proof fn lemma_last_line(before: Seq<PlainLine>, line: PlainLine, text: Seq<char>)
    requires
        text == document_text(before) + line_text(line) + seq!['\n'],
    ensures
        text.len() == document_text(before).len() + line.key.len() + line.value.len() + 6,
        text[text.len() - 3 - line.value.len()] == '"',
        line.value == text.subrange(text.len() - 2 - line.value.len(), text.len() - 2),
        line.key == text.subrange(
            text.len() - 6 - line.value.len() - line.key.len(),
            text.len() - 6 - line.value.len(),
        ),
        document_text(before) == text.subrange(
            0,
            text.len() - 6 - line.value.len() - line.key.len(),
        ),
{
}

/// Of two documents with the same text, neither has the shorter last line: a
/// double quote stands before a value but in none, and a newline or nothing
/// stands before a key, but no newline in one.
proof fn lemma_last_line_lengths(one: Seq<PlainLine>, other: Seq<PlainLine>, text: Seq<char>)
    requires
        one.len() > 0,
        other.len() > 0,
        is_plain_document(other),
        document_text(one) == text,
        document_text(other) == text,
    ensures
        one.last().value.len() >= other.last().value.len(),
        one.last().value.len() == other.last().value.len() ==> one.last().key.len()
            >= other.last().key.len(),
{
    let (a, b) = (one.last(), other.last());
    let before = document_text(one.drop_last());
    lemma_last_line(one.drop_last(), a, text);
    lemma_last_line(other.drop_last(), b, text);
    assert(b == other[other.len() - 1]);
    if a.value.len() < b.value.len() {
        assert(b.value[b.value.len() - 1 - a.value.len()] == '"');
    } else if a.value.len() == b.value.len() && a.key.len() < b.key.len() {
        assert(before.len() > 0);
        assert(before.last() == '\n');
        assert(b.key[b.key.len() - 1 - a.key.len()] == text[before.len() - 1]);
    }
}

} // verus!
