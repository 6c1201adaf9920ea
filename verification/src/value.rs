//! A loosely typed value, the shape in which the event source hands a payload
//! over: nothing in it is guaranteed, so every field access yields an option.

use vstd::prelude::*;

verus! {

/// A semi-structured payload value. A record is a list of key/value pairs;
/// when a key occurs twice, the first occurrence wins on lookup.
pub enum Json {
    Null,
    Bool(bool),
    Int(i64),
    Text(String),
    List(Vec<Json>),
    Record(Vec<(String, Json)>),
}

/// First value bound to `key` in `fields`, if any.
pub open spec fn spec_lookup(fields: Seq<(String, Json)>, key: Seq<char>) -> Option<Json>
    decreases fields.len(),
{
    if fields.len() == 0 {
        None
    } else if fields[0].0@ == key {
        Some(fields[0].1)
    } else {
        spec_lookup(fields.drop_first(), key)
    }
}

/// Value of field `key` of `v`: `None` when `v` is not a record or has no such field.
pub open spec fn spec_field(v: Json, key: Seq<char>) -> Option<Json> {
    match v {
        Json::Record(fields) => spec_lookup(fields@, key),
        _ => None,
    }
}

/// Field `key` of `v` read as text: `None` when the field is absent, `v` is
/// not a record, or the field's value is not text.
pub open spec fn spec_text(v: Json, key: Seq<char>) -> Option<Seq<char>> {
    match spec_field(v, key) {
        Some(Json::Text(s)) => Some(s@),
        _ => None,
    }
}

/// Result of reading one field of a payload that guarantees nothing: the field
/// may be missing altogether, present with an unexpected type, or present with
/// the expected one.
pub enum FieldState<T> {
    Absent,
    Mismatch,
    Value(T),
}

proof fn lemma_lookup_absent(fields: Seq<(String, Json)>, key: Seq<char>)
    requires
        forall|j: int| 0 <= j < fields.len() ==> #[trigger] fields[j].0@ != key,
    ensures
        spec_lookup(fields, key) is None,
    decreases fields.len(),
{
    if fields.len() > 0 {
        lemma_lookup_absent(fields.drop_first(), key);
    }
}

proof fn lemma_lookup_found(fields: Seq<(String, Json)>, key: Seq<char>, i: int)
    requires
        0 <= i < fields.len(),
        fields[i].0@ == key,
        forall|j: int| 0 <= j < i ==> #[trigger] fields[j].0@ != key,
    ensures
        spec_lookup(fields, key) == Some(fields[i].1),
    decreases i,
{
    if i > 0 {
        lemma_lookup_found(fields.drop_first(), key, i - 1);
    }
}

impl Json {
    /// Field access on a record; `None` for a missing field or a non-record value.
    pub fn get<'a>(&'a self, key: &str) -> (r: Option<&'a Json>)
        ensures
            match r {
                Some(v) => spec_field(*self, key@) == Some(*v),
                None => spec_field(*self, key@) is None,
            },
    {
        match self {
            Json::Record(fields) => {
                let wanted: String = key.to_owned();
                let n = fields.len();
                let mut i: usize = 0;
                while i < n
                    invariant
                        *self == Json::Record(*fields),
                        n == fields@.len(),
                        i <= n,
                        wanted@ == key@,
                        forall|j: int| 0 <= j < i ==> #[trigger] fields@[j].0@ != key@,
                    decreases n - i,
                {
                    if fields[i].0 == wanted {
                        proof {
                            lemma_lookup_found(fields@, key@, i as int);
                        }
                        return Some(&fields[i].1);
                    }
                    i += 1;
                }
                proof {
                    lemma_lookup_absent(fields@, key@);
                }
                None
            },
            _ => None,
        }
    }

    /// The text held by this value, if it is text.
    pub fn as_text<'a>(&'a self) -> (r: Option<&'a str>)
        ensures
            match r {
                Some(s) => *self matches Json::Text(t) && t@ == s@,
                None => !(*self matches Json::Text(_)),
            },
    {
        match self {
            Json::Text(s) => Some(s.as_str()),
            _ => None,
        }
    }

    /// Whether this value is a record.
    pub fn is_record(&self) -> (r: bool)
        ensures
            r == (*self matches Json::Record(_)),
    {
        match self {
            Json::Record(_) => true,
            _ => false,
        }
    }

    /// Field `key` read as text, with absence and type mismatch told apart.
    pub fn text_field<'a>(&'a self, key: &str) -> (r: FieldState<&'a str>)
        ensures
            match r {
                FieldState::Value(s) => spec_text(*self, key@) == Some(s@),
                FieldState::Absent => spec_field(*self, key@) is None,
                FieldState::Mismatch => spec_field(*self, key@) is Some && spec_text(*self, key@) is None,
            },
    {
        match self.get(key) {
            Some(v) => match v.as_text() {
                Some(s) => FieldState::Value(s),
                None => FieldState::Mismatch,
            },
            None => FieldState::Absent,
        }
    }
}

} // verus!
