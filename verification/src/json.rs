//! JSON values as the transcription services send and take them, with the
//! lookups that reading a response needs.

use vstd::prelude::*;

verus! {

/// A JSON value. Of numbers only the non-negative integers are kept; any
/// other number is `OtherNumber`.
#[derive(Debug, PartialEq, Eq)]
pub enum Json {
    Null,
    Bool(bool),
    Number(u64),
    OtherNumber,
    Text(String),
    List(Vec<Json>),
    /// The members of an object, each with its key.
    Object(Vec<(String, Json)>),
}

impl Json {
    /// The members of an object; none for any other value.
    pub open spec fn members(self) -> Seq<(String, Json)> {
        match self {
            Json::Object(members) => members@,
            _ => Seq::empty(),
        }
    }

    /// Whether the member at `i` has the key.
    pub open spec fn has_key_at(self, key: Seq<char>, i: int) -> bool {
        0 <= i < self.members().len() && self.members()[i].0@ == key
    }

    /// Whether the member at `i` is the first with the key.
    pub open spec fn first_key_at(self, key: Seq<char>, i: int) -> bool {
        self.has_key_at(key, i) && forall|j: int| 0 <= j < i ==> !self.has_key_at(key, j)
    }

    /// The value of the first member with the key, if the value is an object
    /// that has one.
    pub open spec fn field(self, key: Seq<char>) -> Option<Json> {
        if exists|i: int| self.has_key_at(key, i) {
            Some(self.members()[choose|i: int| self.first_key_at(key, i)].1)
        } else {
            None
        }
    }

    /// The items of a list.
    pub open spec fn items(self) -> Option<Seq<Json>> {
        match self {
            Json::List(items) => Some(items@),
            _ => None,
        }
    }

    /// The characters of a text.
    pub open spec fn text(self) -> Option<Seq<char>> {
        match self {
            Json::Text(text) => Some(text@),
            _ => None,
        }
    }

    /// Looks up a member of an object by its key.
    pub fn get(&self, key: &str) -> (r: Option<&Json>)
        ensures
            match r {
                Some(value) => self.field(key@) == Some(*value),
                None => self.field(key@) is None,
            },
    {
        match self {
            Json::Object(members) => {
                let wanted: String = key.to_owned();
                let mut i: usize = 0;
                while i < members.len()
                    invariant
                        *self == Json::Object(*members),
                        wanted@ == key@,
                        i <= members@.len(),
                        forall|j: int| 0 <= j < i ==> !self.has_key_at(key@, j),
                    decreases members@.len() - i,
                {
                    if members[i].0 == wanted {
                        proof {
                            assert(self.first_key_at(key@, i as int));
                            let chosen = choose|k: int| self.first_key_at(key@, k);
                            assert(chosen == i);
                        }
                        return Some(&members[i].1);
                    }
                    i = i + 1;
                }
                None
            },
            _ => None,
        }
    }

    /// The items of a list, if the value is one.
    pub fn as_list(&self) -> (r: Option<&Vec<Json>>)
        ensures
            match r {
                Some(items) => self.items() == Some(items@),
                None => self.items() is None,
            },
    {
        match self {
            Json::List(items) => Some(items),
            _ => None,
        }
    }

    /// The text, if the value is one.
    pub fn as_text(&self) -> (r: Option<&String>)
        ensures
            match r {
                Some(text) => self.text() == Some(text@),
                None => self.text() is None,
            },
    {
        match self {
            Json::Text(text) => Some(text),
            _ => None,
        }
    }
}

} // verus!
