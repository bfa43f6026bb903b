//! A small recursive JSON value type with safe field-access helpers.
//!
//! The remote API returns a loosely structured document; the extraction
//! logic never assumes a field is present.  Every accessor returns an
//! `Option` and carries a contract tying it to the spec-level lookup
//! functions, so the extractors in `parser` can be verified end to end.

use vstd::prelude::*;

verus! {

/// A JSON document modelled as plain values.  Numbers are held as `i64`;
/// the embedding application maps any non-integral number to `Null` when
/// it converts a decoded document into this type.
pub enum Json {
    Null,
    Bool(bool),
    Int(i64),
    Str(String),
    Arr(Vec<Json>),
    Obj(Vec<(String, Json)>),
}

/// The first binding of `key` among `fields`, searching from index `i`.
pub open spec fn field_from(fields: Seq<(String, Json)>, key: Seq<char>, i: int) -> Option<Json>
    decreases fields.len() - i,
{
    if i < 0 || i >= fields.len() {
        None
    } else if fields[i].0@ == key {
        Some(fields[i].1)
    } else {
        field_from(fields, key, i + 1)
    }
}

/// The value bound to `key` when `j` is an object that has it.
pub open spec fn spec_get(j: Json, key: Seq<char>) -> Option<Json> {
    match j {
        Json::Obj(fields) => field_from(fields@, key, 0),
        _ => None,
    }
}

/// Chained lookup: the value bound to `key` in the object `o` holds, if any.
pub open spec fn opt_get(o: Option<Json>, key: Seq<char>) -> Option<Json> {
    match o {
        Some(j) => spec_get(j, key),
        None => None,
    }
}

/// The character sequence of `j` when it is a string.
pub open spec fn spec_str(j: Json) -> Option<Seq<char>> {
    match j {
        Json::Str(s) => Some(s@),
        _ => None,
    }
}

/// The character sequence of the string `o` holds, if any.
pub open spec fn opt_str(o: Option<Json>) -> Option<Seq<char>> {
    match o {
        Some(j) => spec_str(j),
        None => None,
    }
}

/// The elements of `o` when it holds an array.
pub open spec fn opt_arr(o: Option<Json>) -> Option<Seq<Json>> {
    match o {
        Some(Json::Arr(items)) => Some(items@),
        _ => None,
    }
}

impl Json {
    /// The value bound to `key` when this value is an object that has it.
    #[verifier::loop_isolation(false)]
    pub fn get<'a>(&'a self, key: &str) -> (r: Option<&'a Json>)
        ensures
            match r {
                Some(j) => spec_get(*self, key@) == Some(*j),
                None => spec_get(*self, key@) is None,
            },
    {
        match self {
            Json::Obj(fields) => {
                let k: String = key.to_owned();
                let mut i: usize = 0;
                while i < fields.len()
                    invariant
                        0 <= i <= fields@.len(),
                        k@ == key@,
                        field_from(fields@, key@, 0) == field_from(fields@, key@, i as int),
                    decreases fields@.len() - i,
                {
                    if fields[i].0 == k {
                        proof {
                            assert(field_from(fields@, key@, i as int)
                                == Some(fields@[i as int].1));
                        }
                        return Some(&fields[i].1);
                    }
                    i += 1;
                }
                None
            },
            _ => None,
        }
    }

    /// The string this value holds, if it is a string.
    pub fn as_str<'a>(&'a self) -> (r: Option<&'a String>)
        ensures
            match r {
                Some(s) => spec_str(*self) == Some(s@),
                None => spec_str(*self) is None,
            },
    {
        match self {
            Json::Str(s) => Some(s),
            _ => None,
        }
    }

    /// The integer this value holds, if it is a number.
    pub fn as_int(&self) -> (r: Option<i64>)
        ensures
            match r {
                Some(n) => self is Int && self->Int_0 == n,
                None => !(self is Int),
            },
    {
        match self {
            Json::Int(n) => Some(*n),
            _ => None,
        }
    }

    /// The elements of this value, if it is an array.
    pub fn as_arr<'a>(&'a self) -> (r: Option<&'a Vec<Json>>)
        ensures
            match r {
                Some(items) => *self is Arr && self->Arr_0@ == items@,
                None => !(*self is Arr),
            },
    {
        match self {
            Json::Arr(items) => Some(items),
            _ => None,
        }
    }
}

} // verus!
