//! A configuration document as a tree of values.
//!
//! The text of a configuration file is parsed by the `toml` crate. What it
//! finds is held here as a tree of plain values, which the rest of this crate
//! reads.
//!
//! The parser descends once for every level of nesting, and nothing in it
//! stops the descent: a text that nests deep enough exhausts the stack. A
//! level of nesting cannot begin without an opening bracket, an opening
//! brace or the dot of a dotted key, so these bytes bound how deep a text
//! can nest. Each is given a weight by the stack that its level costs the
//! parser, and a text whose weights add up to more than [`MAX_LOAD`] is not
//! handed to the parser at all.

use vstd::prelude::*;
use crate::error::ConfigError;

verus! {

/// A value of a document.
#[derive(Debug, PartialEq, Eq)]
pub enum Item {
    /// A string.
    Text(String),
    /// A whole number.
    Integer(i64),
    /// A number with a fraction, as the bits of its IEEE 754 double.
    Real(u64),
    /// `true` or `false`.
    Flag(bool),
    /// A date, a time or both, as the document writes it.
    Moment(String),
    /// An array.
    List(Vec<Item>),
    /// A table: keys with their values.
    Table(Vec<(String, Item)>),
}

/// The value that stands under `key` in the entries of a table: that of the
/// first entry with this key.
pub open spec fn entry(entries: Seq<(String, Item)>, key: Seq<char>) -> Option<Item>
    decreases entries.len(),
{
    if entries.len() == 0 {
        None
    } else if entries[0].0@ == key {
        Some(entries[0].1)
    } else {
        entry(entries.drop_first(), key)
    }
}

/// The value that stands under `key` in the entries of a table.
pub fn lookup<'a>(entries: &'a Vec<(String, Item)>, key: &str) -> (found: Option<&'a Item>)
    ensures
        match found {
            Some(item) => entry(entries@, key@) == Some(*item),
            None => entry(entries@, key@) is None,
        },
{
    let wanted = String::from_str(key);
    let mut at: usize = 0;
    assert(entries@.subrange(0, entries@.len() as int) =~= entries@);
    while at < entries.len()
        invariant
            at <= entries.len(),
            wanted@ == key@,
            entry(entries@, key@) == entry(entries@.subrange(at as int, entries@.len() as int), key@),
        decreases entries.len() - at,
    {
        let ghost rest = entries@.subrange(at as int, entries@.len() as int);
        assert(rest[0] == entries@[at as int]);
        assert(rest.drop_first() =~= entries@.subrange(at + 1, entries@.len() as int));
        if entries[at].0 == wanted {
            return Some(&entries[at].1);
        }
        at = at + 1;
    }
    None
}

/// The greatest load that a text may have and still be parsed.
pub const MAX_LOAD: usize = 1024;

/// The byte `[`.
pub const BRACKET: u8 = 0x5b;

/// The byte `{`.
pub const BRACE: u8 = 0x7b;

/// The byte `.`.
pub const DOT: u8 = 0x2e;

/// What a byte adds to the load of a text: 4 for a bracket or a brace, which
/// may open an array or a table, 1 for a dot, which may part the segments of
/// a key, and nothing for any other byte.
pub open spec fn weight(byte: u8) -> nat {
    if byte == BRACKET || byte == BRACE {
        4
    } else if byte == DOT {
        1
    } else {
        0
    }
}

/// The load of a text: the weights of its bytes, added up.
pub open spec fn load(bytes: Seq<u8>) -> nat
    decreases bytes.len(),
{
    if bytes.len() == 0 {
        0
    } else {
        load(bytes.drop_last()) + weight(bytes.last())
    }
}

/// The load of a text is at least that of each of its beginnings.
pub proof fn lemma_load_grows(bytes: Seq<u8>, cut: int)
    requires
        0 <= cut <= bytes.len(),
    ensures
        load(bytes.subrange(0, cut)) <= load(bytes),
    decreases bytes.len() - cut,
{
    if cut == bytes.len() {
        assert(bytes.subrange(0, cut) =~= bytes);
    } else {
        assert(bytes.drop_last().subrange(0, cut) =~= bytes.subrange(0, cut));
        lemma_load_grows(bytes.drop_last(), cut);
    }
}

/// Whether the load of a text is within [`MAX_LOAD`].
pub fn within_load(bytes: &[u8]) -> (within: bool)
    ensures
        within == (load(bytes@) <= MAX_LOAD),
{
    let mut sum: usize = 0;
    let mut at: usize = 0;
    assert(bytes@.subrange(0, 0) =~= Seq::<u8>::empty());
    while at < bytes.len()
        invariant
            at <= bytes.len(),
            sum <= MAX_LOAD,
            sum == load(bytes@.subrange(0, at as int)),
        decreases bytes.len() - at,
    {
        let ghost next = bytes@.subrange(0, at + 1);
        assert(next.drop_last() =~= bytes@.subrange(0, at as int));
        assert(next.last() == bytes@[at as int]);
        if bytes[at] == BRACKET || bytes[at] == BRACE {
            sum = sum + 4;
        } else if bytes[at] == DOT {
            sum = sum + 1;
        }
        if sum > MAX_LOAD {
            proof {
                lemma_load_grows(bytes@, at + 1);
            }
            return false;
        }
        at = at + 1;
    }
    assert(bytes@.subrange(0, bytes@.len() as int) =~= bytes@);
    true
}

/// `toml::Value`, the value of a document as the `toml` crate holds it. It
/// is declared so that [`item_of`] can take one; nothing of what it holds is
/// known here.
#[verifier::external_type_specification]
#[verifier::external_body]
pub struct ExValue(toml::Value);

/// What the `toml` crate makes of `bytes`: the document as a tree, or the
/// message of the error that it reports.
pub uninterp spec fn toml_document(bytes: Seq<u8>) -> Result<Item, String>;

/// Moves a value of the `toml` crate into a tree of this crate, variant by
/// variant: `toml::Value::String` to `Item::Text`, `Integer` to
/// `Item::Integer`, `Float` to `Item::Real` by `to_bits`, `Boolean` to
/// `Item::Flag`, `Datetime` to `Item::Moment` by `to_string`, `Array` to
/// `Item::List` and `Table` to `Item::Table`, the elements of the last two
/// moved in the same way and kept in the order in which the crate walks
/// them. Nothing is claimed of the result here.
#[verifier::external_body]
fn item_of(value: toml::Value) -> Item {
    match value {
        toml::Value::String(text) => Item::Text(text),
        toml::Value::Integer(number) => Item::Integer(number),
        toml::Value::Float(number) => Item::Real(number.to_bits()),
        toml::Value::Boolean(flag) => Item::Flag(flag),
        toml::Value::Datetime(moment) => Item::Moment(moment.to_string()),
        toml::Value::Array(items) => Item::List(items.into_iter().map(item_of).collect()),
        toml::Value::Table(table) => Item::Table(
            table.into_iter().map(|(key, value)| (key, item_of(value))).collect(),
        ),
    }
}

/// Calls `toml::from_slice` to read `bytes` as a `toml::Value`. The contract
/// gives the outcome its name and claims nothing more: the input is read as
/// UTF-8 and then as a TOML document, and the same bytes always give the
/// same tree or the same message. The parser calls itself for every level
/// of nesting without a limit, which is why the load of the text is bounded
/// here.
#[verifier::external_body]
fn parse_document(bytes: &[u8]) -> (parsed: Result<Item, String>)
    requires
        load(bytes@) <= MAX_LOAD,
    ensures
        parsed == toml_document(bytes@),
{
    match toml::from_slice::<toml::Value>(bytes) {
        Ok(value) => Ok(item_of(value)),
        Err(error) => Err(error.to_string()),
    }
}

/// The document that a text writes. A text whose load is beyond the limit
/// is refused unread; any other is what the parser makes of it.
pub open spec fn document_of(bytes: Seq<u8>) -> Result<Item, ConfigError> {
    if load(bytes) > MAX_LOAD {
        Err(ConfigError::Nesting)
    } else {
        match toml_document(bytes) {
            Ok(document) => Ok(document),
            Err(message) => Err(ConfigError::Syntax { message }),
        }
    }
}

/// Reads the TOML text in `bytes` as a document.
pub fn read_document(bytes: &[u8]) -> (read: Result<Item, ConfigError>)
    ensures
        read == document_of(bytes@),
{
    if !within_load(bytes) {
        return Err(ConfigError::Nesting);
    }
    match parse_document(bytes) {
        Ok(document) => Ok(document),
        Err(message) => Err(ConfigError::Syntax { message }),
    }
}

} // verus!
