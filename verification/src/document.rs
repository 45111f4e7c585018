//! A normalized model of the structured command replies the database returns.
//!
//! Replies are BSON documents on the wire; the agent's logic only ever reads a
//! small set of field shapes out of them (integers, strings, booleans,
//! timestamps, arrays and nested documents).  This module models a reply as an
//! ordered list of key/value entries holding exactly those shapes; everything
//! the logic never inspects is carried as [`Value::Opaque`].  The host converts
//! wire documents into this model at the connection boundary.
use vstd::prelude::*;

verus! {

/// One field value of a reply document.
pub enum Value {
    /// A 32-bit integer field.
    Int32(i32),
    /// A 64-bit integer field.
    Int64(i64),
    /// A boolean field.
    Boolean(bool),
    /// A string field.
    Text(String),
    /// A point in time, as milliseconds since the Unix epoch.
    DateTime(i64),
    /// An array of values.
    Array(Vec<Value>),
    /// A nested document.
    Doc(Document),
    /// An explicit null.
    Null,
    /// Any field shape the agent's logic never reads.
    Opaque,
}

/// A reply document: an ordered list of key/value entries.
pub struct Document {
    /// The entries, in wire order.
    pub entries: Vec<(String, Value)>,
}

/// Failure to read one field out of a document.
#[derive(Clone, Copy, PartialEq, Eq, Structural, Debug)]
pub enum ValueAccessError {
    /// The key is not present in the document.
    NotPresent,
    /// The key is present but its value has another shape.
    UnexpectedType,
}

/// The position of the first entry with the given key, or the length of
/// entries when no entry has it.
pub open spec fn spec_key_at(entries: Seq<(String, Value)>, key: Seq<char>) -> int
    decreases entries.len(),
{
    if entries.len() == 0 {
        0
    } else if entries[0].0@ == key {
        0
    } else {
        1 + spec_key_at(entries.skip(1), key)
    }
}

/// The value of the first entry with the given key, if any entry has it.
pub open spec fn spec_lookup(entries: Seq<(String, Value)>, key: Seq<char>) -> Option<Value> {
    let i = spec_key_at(entries, key);
    if i < entries.len() {
        Some(entries[i].1)
    } else {
        None
    }
}

/// What spec_key_at points at: an index no larger than the length, whose entry
/// carries the key when it is a proper index, with no earlier entry carrying it.
pub proof fn lemma_key_at(entries: Seq<(String, Value)>, key: Seq<char>)
    ensures
        0 <= spec_key_at(entries, key) <= entries.len(),
        spec_key_at(entries, key) < entries.len() ==> entries[spec_key_at(entries, key)].0@
            == key,
        forall|j: int| 0 <= j < spec_key_at(entries, key) ==> entries[j].0@ != key,
    decreases entries.len(),
{
    if entries.len() > 0 && entries[0].0@ != key {
        lemma_key_at(entries.skip(1), key);
        assert forall|j: int| 0 <= j < spec_key_at(entries, key) implies entries[j].0@ != key by {
            if j > 0 {
                assert(entries[j] == entries.skip(1)[j - 1]);
            }
        }
    }
}

/// The first entry with the given key stands exactly where a scan that saw no
/// earlier match found it.
pub proof fn lemma_key_at_found(entries: Seq<(String, Value)>, key: Seq<char>, i: int)
    requires
        0 <= i < entries.len(),
        entries[i].0@ == key,
        forall|j: int| 0 <= j < i ==> entries[j].0@ != key,
    ensures
        spec_key_at(entries, key) == i,
        spec_lookup(entries, key) == Some(entries[i].1),
{
    lemma_key_at(entries, key);
    let ka = spec_key_at(entries, key);
    if ka < i {
        assert(entries[ka].0@ != key);
    }
}

/// A scan that saw no match anywhere proves the key absent.
pub proof fn lemma_key_absent(entries: Seq<(String, Value)>, key: Seq<char>)
    requires
        forall|j: int| 0 <= j < entries.len() ==> entries[j].0@ != key,
    ensures
        spec_key_at(entries, key) == entries.len(),
        spec_lookup(entries, key) is None,
{
    lemma_key_at(entries, key);
}

impl Document {
    /// The value of the first entry with the given key, if any.
    pub open spec fn spec_get(&self, key: Seq<char>) -> Option<Value> {
        spec_lookup(self.entries@, key)
    }

    /// Whether any entry has the given key.
    pub open spec fn spec_has_key(&self, key: Seq<char>) -> bool {
        self.spec_get(key) is Some
    }

    /// The 32-bit integer stored under the key, or why it cannot be read.
    pub open spec fn spec_get_i32(&self, key: Seq<char>) -> Result<i32, ValueAccessError> {
        match self.spec_get(key) {
            Some(Value::Int32(v)) => Ok(v),
            Some(_) => Err(ValueAccessError::UnexpectedType),
            None => Err(ValueAccessError::NotPresent),
        }
    }

    /// The boolean stored under the key, or why it cannot be read.
    pub open spec fn spec_get_bool(&self, key: Seq<char>) -> Result<bool, ValueAccessError> {
        match self.spec_get(key) {
            Some(Value::Boolean(v)) => Ok(v),
            Some(_) => Err(ValueAccessError::UnexpectedType),
            None => Err(ValueAccessError::NotPresent),
        }
    }

    /// The string stored under the key, or why it cannot be read.
    pub open spec fn spec_get_text(&self, key: Seq<char>) -> Result<String, ValueAccessError> {
        match self.spec_get(key) {
            Some(Value::Text(v)) => Ok(v),
            Some(_) => Err(ValueAccessError::UnexpectedType),
            None => Err(ValueAccessError::NotPresent),
        }
    }

    /// The timestamp (milliseconds) stored under the key, or why it cannot be read.
    pub open spec fn spec_get_datetime(&self, key: Seq<char>) -> Result<i64, ValueAccessError> {
        match self.spec_get(key) {
            Some(Value::DateTime(v)) => Ok(v),
            Some(_) => Err(ValueAccessError::UnexpectedType),
            None => Err(ValueAccessError::NotPresent),
        }
    }

    /// The array stored under the key, or why it cannot be read.
    pub open spec fn spec_get_array(&self, key: Seq<char>) -> Result<Vec<Value>, ValueAccessError> {
        match self.spec_get(key) {
            Some(Value::Array(v)) => Ok(v),
            Some(_) => Err(ValueAccessError::UnexpectedType),
            None => Err(ValueAccessError::NotPresent),
        }
    }

    /// The nested document stored under the key, or why it cannot be read.
    pub open spec fn spec_get_document(&self, key: Seq<char>) -> Result<
        Document,
        ValueAccessError,
    > {
        match self.spec_get(key) {
            Some(Value::Doc(v)) => Ok(v),
            Some(_) => Err(ValueAccessError::UnexpectedType),
            None => Err(ValueAccessError::NotPresent),
        }
    }

    /// An empty document.
    pub fn new() -> (doc: Document)
        ensures
            doc.entries@ =~= Seq::<(String, Value)>::empty(),
    {
        Document { entries: Vec::new() }
    }

    /// Appends one entry at the end of the document.
    pub fn push_entry(&mut self, key: String, value: Value)
        ensures
            final(self).entries@ == old(self).entries@.push((key, value)),
    {
        self.entries.push((key, value));
    }

    /// The position of the first entry with the given key, if any entry has it.
    pub fn position(&self, key: &str) -> (at: Option<usize>)
        ensures
            match at {
                Some(i) => i == spec_key_at(self.entries@, key@) && i < self.entries@.len(),
                None => !self.spec_has_key(key@),
            },
    {
        let k: String = key.to_owned();
        let n = self.entries.len();
        let mut i: usize = 0;
        while i < n
            invariant
                n == self.entries@.len(),
                0 <= i <= n,
                k@ == key@,
                forall|j: int| 0 <= j < i ==> self.entries@[j].0@ != key@,
            decreases n - i,
        {
            if self.entries[i].0 == k {
                proof {
                    lemma_key_at_found(self.entries@, key@, i as int);
                }
                return Some(i);
            }
            i += 1;
        }
        proof {
            lemma_key_absent(self.entries@, key@);
        }
        None
    }

    /// Borrows the value of the first entry with the given key, if any.
    pub fn get<'a>(&'a self, key: &str) -> (value: Option<&'a Value>)
        ensures
            match value {
                Some(v) => self.spec_get(key@) == Some(*v),
                None => self.spec_get(key@) is None,
            },
    {
        match self.position(key) {
            Some(i) => {
                proof {
                    lemma_key_at(self.entries@, key@);
                }
                Some(&self.entries[i].1)
            },
            None => None,
        }
    }

    /// Whether any entry has the given key.
    pub fn contains_key(&self, key: &str) -> (found: bool)
        ensures
            found == self.spec_has_key(key@),
    {
        self.position(key).is_some()
    }

    /// Reads the 32-bit integer stored under the key.
    pub fn get_i32(&self, key: &str) -> (value: Result<i32, ValueAccessError>)
        ensures
            value == self.spec_get_i32(key@),
    {
        match self.get(key) {
            Some(Value::Int32(v)) => Ok(*v),
            Some(_) => Err(ValueAccessError::UnexpectedType),
            None => Err(ValueAccessError::NotPresent),
        }
    }

    /// Reads the boolean stored under the key.
    pub fn get_bool(&self, key: &str) -> (value: Result<bool, ValueAccessError>)
        ensures
            value == self.spec_get_bool(key@),
    {
        match self.get(key) {
            Some(Value::Boolean(v)) => Ok(*v),
            Some(_) => Err(ValueAccessError::UnexpectedType),
            None => Err(ValueAccessError::NotPresent),
        }
    }

    /// Borrows the string stored under the key.
    pub fn get_str<'a>(&'a self, key: &str) -> (value: Result<&'a String, ValueAccessError>)
        ensures
            match value {
                Ok(s) => self.spec_get_text(key@) == Ok::<String, ValueAccessError>(*s),
                Err(e) => self.spec_get_text(key@) == Err::<String, ValueAccessError>(e),
            },
    {
        match self.get(key) {
            Some(Value::Text(v)) => Ok(v),
            Some(_) => Err(ValueAccessError::UnexpectedType),
            None => Err(ValueAccessError::NotPresent),
        }
    }

    /// Reads the timestamp (milliseconds) stored under the key.
    pub fn get_datetime(&self, key: &str) -> (value: Result<i64, ValueAccessError>)
        ensures
            value == self.spec_get_datetime(key@),
    {
        match self.get(key) {
            Some(Value::DateTime(v)) => Ok(*v),
            Some(_) => Err(ValueAccessError::UnexpectedType),
            None => Err(ValueAccessError::NotPresent),
        }
    }

    /// Borrows the array stored under the key.
    pub fn get_array<'a>(&'a self, key: &str) -> (value: Result<&'a Vec<Value>, ValueAccessError>)
        ensures
            match value {
                Ok(a) => self.spec_get_array(key@) == Ok::<Vec<Value>, ValueAccessError>(*a),
                Err(e) => self.spec_get_array(key@) == Err::<Vec<Value>, ValueAccessError>(e),
            },
    {
        match self.get(key) {
            Some(Value::Array(v)) => Ok(v),
            Some(_) => Err(ValueAccessError::UnexpectedType),
            None => Err(ValueAccessError::NotPresent),
        }
    }

    /// Borrows the nested document stored under the key.
    pub fn get_document<'a>(&'a self, key: &str) -> (value: Result<&'a Document, ValueAccessError>)
        ensures
            match value {
                Ok(d) => self.spec_get_document(key@) == Ok::<Document, ValueAccessError>(*d),
                Err(e) => self.spec_get_document(key@) == Err::<Document, ValueAccessError>(e),
            },
    {
        match self.get(key) {
            Some(Value::Doc(v)) => Ok(v),
            Some(_) => Err(ValueAccessError::UnexpectedType),
            None => Err(ValueAccessError::NotPresent),
        }
    }
}

impl Value {
    /// Borrows the nested document when this value is one.
    pub fn as_document<'a>(&'a self) -> (doc: Option<&'a Document>)
        ensures
            match doc {
                Some(d) => *self == Value::Doc(*d),
                None => !(*self is Doc),
            },
    {
        match self {
            Value::Doc(d) => Some(d),
            _ => None,
        }
    }
}

} // verus!
