//! A TOML document, read as far as the build configuration needs it: the
//! `[package.metadata.xcode-build-rs]` section of a `Cargo.toml`.
use vstd::prelude::*;

verus! {

#[verifier::external_type_specification]
#[verifier::external_body]
pub struct ExTomlValue(toml::Value);

/// A TOML value. Tables keep their entries in the order the parser hands
/// them out; floats and date-times keep the text that they display as.
#[derive(Debug, PartialEq)]
pub enum TomlValue {
    String(String),
    Integer(i64),
    /// A TOML float, by the decimal text that it displays as.
    Float(String),
    Boolean(bool),
    /// A TOML date-time, by the text that it displays as.
    Datetime(String),
    Array(Vec<TomlValue>),
    Table(Vec<(String, TomlValue)>),
}

/// The value of the first entry whose key is `key`.
pub open spec fn entry_value(entries: Seq<(String, TomlValue)>, key: Seq<char>) -> Option<TomlValue>
    decreases entries.len(),
{
    if entries.len() == 0 {
        None
    } else if entries[0].0@ == key {
        Some(entries[0].1)
    } else {
        entry_value(entries.drop_first(), key)
    }
}

/// A lookup gives a value stored under the key, and it finds one whenever
/// the table has the key.
pub proof fn lemma_entry_value(entries: Seq<(String, TomlValue)>, key: Seq<char>)
    ensures
        entry_value(entries, key) matches Some(v) ==> exists|i: int| 0 <= i < entries.len()
            && (#[trigger] entries[i]).0@ == key && entries[i].1 == v,
        entry_value(entries, key) is None ==> forall|i: int| 0 <= i < entries.len() ==> (#[trigger] entries[i]).0@ != key,
    decreases entries.len(),
{
    if entries.len() > 0 {
        let rest = entries.drop_first();
        lemma_entry_value(rest, key);
        if entries[0].0@ != key {
            if let Some(v) = entry_value(rest, key) {
                let j = choose|j: int| 0 <= j < rest.len() && (#[trigger] rest[j]).0@ == key && rest[j].1 == v;
                assert(entries[j + 1] == rest[j]);
            } else {
                assert forall|i: int| 0 <= i < entries.len() implies (#[trigger] entries[i]).0@ != key by {
                    if i > 0 {
                        assert(entries[i] == rest[i - 1]);
                    }
                }
            }
        }
    }
}

impl TomlValue {
    /// What indexing a value by a key gives: the entry of a table, and
    /// nothing for any other kind of value.
    pub open spec fn lookup(self, key: Seq<char>) -> Option<TomlValue> {
        match self {
            TomlValue::Table(entries) => entry_value(entries@, key),
            _ => None,
        }
    }

    /// Moves out the value stored under `key`, if `self` is a table that has it.
    pub fn take(self, key: &str) -> (r: Option<TomlValue>)
        ensures
            r == self.lookup(key@),
    {
        match self {
            TomlValue::Table(entries) => {
                let wanted = key.to_owned();
                let mut i: usize = 0;
                assert(entries@.skip(0) =~= entries@);
                while i < entries.len()
                    invariant
                        i <= entries.len(),
                        wanted@ == key@,
                        self.lookup(key@) == entry_value(entries@, key@),
                        entry_value(entries@, key@) == entry_value(entries@.skip(i as int), key@),
                    decreases entries.len() - i,
                {
                    if entries[i].0 == wanted {
                        assert(entries@.skip(i as int)[0] == entries@[i as int]);
                        let ghost found = entries@[i as int].1;
                        assert(entry_value(entries@, key@) == Some(found));
                        let mut rest = entries;
                        let removed = rest.remove(i);
                        assert(removed.1 == found);
                        return Some(removed.1);
                    }
                    assert(entries@.skip(i as int).drop_first() =~= entries@.skip(i + 1));
                    i = i + 1;
                }
                None
            },
            _ => None,
        }
    }
}

/// What `toml::from_str::<toml::Value>` gives for a text: the document, or the
/// message of the error that the parser reports.
pub uninterp spec fn toml_document(text: Seq<char>) -> Result<TomlValue, Seq<char>>;

/// Turns a value of the `toml` crate into a [`TomlValue`], variant by variant.
#[verifier::external_body]
fn from_toml(value: toml::Value) -> TomlValue {
    match value {
        toml::Value::String(s) => TomlValue::String(s),
        toml::Value::Integer(i) => TomlValue::Integer(i),
        toml::Value::Float(x) => TomlValue::Float(x.to_string()),
        toml::Value::Boolean(b) => TomlValue::Boolean(b),
        toml::Value::Datetime(d) => TomlValue::Datetime(d.to_string()),
        toml::Value::Array(items) => TomlValue::Array(items.into_iter().map(from_toml).collect()),
        toml::Value::Table(t) => TomlValue::Table(t.into_iter().map(|(k, v)| (k, from_toml(v))).collect()),
    }
}

/// Parses a TOML document with `toml::from_str::<toml::Value>`. Claimed: the
/// result is the one that [`toml_document`] names for the text; on failure the
/// error is the parser's message as displayed.
#[verifier::external_body]
fn parse_document(text: &str) -> (r: Result<TomlValue, String>)
    ensures
        match r {
            Ok(doc) => toml_document(text@) == Ok::<TomlValue, Seq<char>>(doc),
            Err(msg) => toml_document(text@) == Err::<TomlValue, Seq<char>>(msg@),
        },
{
    match toml::from_str::<toml::Value>(text) {
        Ok(value) => Ok(from_toml(value)),
        Err(e) => Err(e.to_string()),
    }
}

/// Why a manifest could not be read as configuration.
#[derive(Debug)]
pub enum ManifestError {
    /// The manifest is not valid TOML; the parser's message.
    InvalidToml(String),
}

/// The `package.metadata.xcode-build-rs` section of a parsed document.
pub open spec fn xcode_build_section_of(doc: TomlValue) -> Option<TomlValue> {
    match doc.lookup("package"@) {
        Some(package) => match package.lookup("metadata"@) {
            Some(metadata) => metadata.lookup("xcode-build-rs"@),
            None => None,
        },
        None => None,
    }
}

/// The section is found by three lookups, whatever else the tables hold: when
/// the document has `package`, that has `metadata`, and that has
/// `xcode-build-rs`, the section is that value; when any of the three is
/// missing, there is no section.
pub proof fn lemma_section_by_lookups(doc: TomlValue)
    ensures
        doc.lookup("package"@) is None ==> xcode_build_section_of(doc) is None,
        (doc.lookup("package"@) matches Some(p) && p.lookup("metadata"@) is None) ==> xcode_build_section_of(doc) is None,
        (doc.lookup("package"@) matches Some(p) && p.lookup("metadata"@) matches Some(m)
            && m.lookup("xcode-build-rs"@) is None) ==> xcode_build_section_of(doc) is None,
{
}

proof fn lemma_entry_value_at(entries: Seq<(String, TomlValue)>, key: Seq<char>, i: int)
    requires
        0 <= i < entries.len(),
        entries[i].0@ == key,
        forall|j: int| 0 <= j < i ==> (#[trigger] entries[j]).0@ != key,
    ensures
        entry_value(entries, key) == Some(entries[i].1),
    decreases entries.len(),
{
    if i > 0 {
        let rest = entries.drop_first();
        assert(entries[0].0@ != key);
        assert forall|j: int| 0 <= j < i - 1 implies (#[trigger] rest[j]).0@ != key by {
            assert(rest[j] == entries[j + 1]);
        }
        lemma_entry_value_at(rest, key, i - 1);
    }
}

/// Looking a key up in a table gives the value of its first entry with that
/// key, wherever that entry stands; a value that is not a table has no entries.
pub proof fn lemma_table_lookup(entries: Vec<(String, TomlValue)>, key: Seq<char>, i: int)
    requires
        0 <= i < entries@.len(),
        entries@[i].0@ == key,
        forall|j: int| 0 <= j < i ==> (#[trigger] entries@[j]).0@ != key,
    ensures
        TomlValue::Table(entries).lookup(key) == Some(entries@[i].1),
{
    lemma_entry_value_at(entries@, key, i);
}

/// Only tables have entries to look up.
pub proof fn lemma_lookup_needs_table(value: TomlValue, key: Seq<char>)
    ensures
        !(value is Table) ==> value.lookup(key) is None,
{
}

/// When the document's `package` table has a `metadata` table with an
/// `xcode-build-rs` entry, that entry is the section, whatever else any of
/// these tables holds.
pub proof fn lemma_section_found(doc: TomlValue, package: TomlValue, metadata: TomlValue, section: TomlValue)
    requires
        doc.lookup("package"@) == Some(package),
        package.lookup("metadata"@) == Some(metadata),
        metadata.lookup("xcode-build-rs"@) == Some(section),
    ensures
        xcode_build_section_of(doc) == Some(section),
{
}

/// A table lookup depends only on the entries with that key: an entry under
/// another key, inserted anywhere, changes nothing.
pub proof fn lemma_entry_value_ignores_other_keys(entries: Seq<(String, TomlValue)>, j: int, other: (String, TomlValue), key: Seq<char>)
    requires
        0 <= j <= entries.len(),
        other.0@ != key,
    ensures
        entry_value(entries.insert(j, other), key) == entry_value(entries, key),
    decreases entries.len(),
{
    if j > 0 {
        let rest = entries.drop_first();
        lemma_entry_value_ignores_other_keys(rest, j - 1, other, key);
        assert(entries.insert(j, other).drop_first() =~= rest.insert(j - 1, other));
        assert(entries.insert(j, other)[0] == entries[0]);
    } else {
        assert(entries.insert(0, other).drop_first() =~= entries);
    }
}

/// Finds the `[package.metadata.xcode-build-rs]` section of a manifest's
/// text. No text (the manifest could not be read) and a document without the
/// section both give `Ok(None)`: the default configuration applies.
pub fn xcode_build_section(manifest: Option<&str>) -> (r: Result<Option<TomlValue>, ManifestError>)
    ensures
        manifest is None ==> r == Ok::<Option<TomlValue>, ManifestError>(None),
        manifest matches Some(text) ==> match toml_document(text@) {
            Ok(doc) => r == Ok::<Option<TomlValue>, ManifestError>(xcode_build_section_of(doc)),
            Err(msg) => r matches Err(ManifestError::InvalidToml(m)) && m@ == msg,
        },
{
    match manifest {
        None => Ok(None),
        Some(text) => match parse_document(text) {
            Err(msg) => Err(ManifestError::InvalidToml(msg)),
            Ok(doc) => match doc.take("package") {
                None => Ok(None),
                Some(package) => match package.take("metadata") {
                    None => Ok(None),
                    Some(metadata) => Ok(metadata.take("xcode-build-rs")),
                },
            },
        },
    }
}

} // verus!
