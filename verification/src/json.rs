//! The documents that a node answers with, as plain values.

use vstd::prelude::*;

verus! {

/// A JSON document. Numbers that are no integers carry no value here: the
/// library reads none.
#[derive(Debug, PartialEq)]
pub enum Json {
    Null,
    Bool(bool),
    Integer(i128),
    Real,
    Text(String),
    List(Vec<Json>),
    Object(Vec<(String, Json)>),
}

/// `i` is the place of the first entry of `entries` under `key`.
pub open spec fn first_under(entries: Seq<(String, Json)>, key: Seq<char>, i: int) -> bool {
    &&& 0 <= i < entries.len()
    &&& entries[i].0@ == key
    &&& forall|j: int| 0 <= j < i ==> (#[trigger] entries[j]).0@ != key
}

impl Json {
    /// The member of an object under `key`, the first where a key repeats.
    /// Anything but an object has no members.
    pub open spec fn member_of(self, key: Seq<char>) -> Option<Json> {
        match self {
            Json::Object(entries) => {
                if exists|i: int| first_under(entries@, key, i) {
                    Some(entries@[choose|i: int| first_under(entries@, key, i)].1)
                } else {
                    None
                }
            },
            _ => None,
        }
    }

    /// The integer that the document is, where it fits `u64`.
    pub open spec fn u64_of(self) -> Option<u64> {
        match self {
            Json::Integer(n) => if 0 <= n <= u64::MAX {
                Some(n as u64)
            } else {
                None
            },
            _ => None,
        }
    }

    /// The integer that the document is, where it fits `i64`.
    pub open spec fn i64_of(self) -> Option<i64> {
        match self {
            Json::Integer(n) => if i64::MIN <= n <= i64::MAX {
                Some(n as i64)
            } else {
                None
            },
            _ => None,
        }
    }

    /// The text that the document is.
    pub open spec fn text_of(self) -> Option<Seq<char>> {
        match self {
            Json::Text(t) => Some(t@),
            _ => None,
        }
    }

    /// The items of the list that the document is.
    pub open spec fn items_of(self) -> Option<Seq<Json>> {
        match self {
            Json::List(items) => Some(items@),
            _ => None,
        }
    }

    /// The member of an object under `key`; `None` for a key the object
    /// lacks and for anything that is no object.
    pub fn member(&self, key: &str) -> (found: Option<&Json>)
        ensures
            match found {
                Some(m) => self.member_of(key@) == Some(*m),
                None => self.member_of(key@) is None,
            },
    {
        match self {
            Json::Object(entries) => {
                let mut i: usize = 0;
                while i < entries.len()
                    invariant
                        *self == Json::Object(*entries),
                        i <= entries.len(),
                        forall|j: int| 0 <= j < i ==> (#[trigger] entries@[j]).0@ != key@,
                    decreases entries.len() - i,
                {
                    if same_text(entries[i].0.as_str(), key) {
                        proof {
                            lemma_member(*entries, key@, i as int);
                        }
                        return Some(&entries[i].1);
                    }
                    i = i + 1;
                }
                proof {
                    if exists|c: int| first_under(entries@, key@, c) {
                        let c = choose|c: int| first_under(entries@, key@, c);
                        assert(entries@[c].0@ != key@);
                    }
                }
                None
            },
            _ => None,
        }
    }

    /// The document as an integer from 0 to `u64::MAX`, where it is one.
    pub fn as_u64(&self) -> (number: Option<u64>)
        ensures
            number == self.u64_of(),
    {
        match self {
            Json::Integer(n) => if 0 <= *n && *n <= 0xffff_ffff_ffff_ffff {
                Some(*n as u64)
            } else {
                None
            },
            _ => None,
        }
    }

    /// The document as an integer within `i64`, where it is one.
    pub fn as_i64(&self) -> (number: Option<i64>)
        ensures
            number == self.i64_of(),
    {
        match self {
            Json::Integer(n) => if -0x8000_0000_0000_0000 <= *n && *n <= 0x7fff_ffff_ffff_ffff {
                Some(*n as i64)
            } else {
                None
            },
            _ => None,
        }
    }

    /// The document as a text, where it is one.
    pub fn as_str(&self) -> (text: Option<&str>)
        ensures
            match text {
                Some(t) => self.text_of() == Some(t@),
                None => self.text_of() is None,
            },
    {
        match self {
            Json::Text(t) => Some(t.as_str()),
            _ => None,
        }
    }

    /// The items of the document, where it is a list.
    pub fn as_array(&self) -> (items: Option<&Vec<Json>>)
        ensures
            match items {
                Some(list) => self.items_of() == Some(list@),
                None => self.items_of() is None,
            },
    {
        match self {
            Json::List(items) => Some(items),
            _ => None,
        }
    }
}

/// The first entry under a key is the member that an object has under it.
pub proof fn lemma_member(entries: Vec<(String, Json)>, key: Seq<char>, i: int)
    requires
        first_under(entries@, key, i),
    ensures
        Json::Object(entries).member_of(key) == Some(entries@[i].1),
{
    let c = choose|c: int| first_under(entries@, key, c);
    assert(first_under(entries@, key, c));
    if c < i {
        assert(entries@[c].0@ != key);
    }
    if i < c {
        assert(entries@[i].0@ != key);
    }
}

/// Whether two texts hold the same characters.
pub fn same_text(a: &str, b: &str) -> (same: bool)
    ensures
        same == (a@ == b@),
{
    a.to_owned() == b.to_owned()
}

} // verus!
