//! JSON values as the library reads and writes them.
use vstd::prelude::*;
use crate::text::str_eq;

verus! {

/// A JSON document held as plain data.
///
/// An object keeps its members in the order in which they were read or
/// written; a lookup takes the first member with the key asked for. A
/// floating-point number is marked as one and its value is not kept: the
/// library reads none, and what a given text yields to the last bit is not
/// the same on every machine.
#[derive(Debug, PartialEq, Eq)]
pub enum JsonValue {
    Null,
    Boolean(bool),
    I64(i64),
    U64(u64),
    F64,
    String(String),
    Array(Vec<JsonValue>),
    Object(Vec<(String, JsonValue)>),
}

/// The mathematical model of a [`JsonValue`].
pub enum JsonView {
    Null,
    Boolean(bool),
    I64(i64),
    U64(u64),
    F64,
    String(Seq<char>),
    Array(Seq<JsonView>),
    Object(Seq<(Seq<char>, JsonView)>),
}

/// The model of `value`, built from the models of its parts.
pub open spec fn model_of(value: JsonValue) -> JsonView
    decreases value,
{
    match value {
        JsonValue::Null => JsonView::Null,
        JsonValue::Boolean(b) => JsonView::Boolean(b),
        JsonValue::I64(n) => JsonView::I64(n),
        JsonValue::U64(n) => JsonView::U64(n),
        JsonValue::F64 => JsonView::F64,
        JsonValue::String(s) => JsonView::String(s@),
        JsonValue::Array(items) => JsonView::Array(
            Seq::new(
                items@.len(),
                |i: int|
                    if 0 <= i < items@.len() {
                        model_of(items@[i])
                    } else {
                        JsonView::Null
                    },
            ),
        ),
        JsonValue::Object(members) => JsonView::Object(
            Seq::new(
                members@.len(),
                |i: int|
                    if 0 <= i < members@.len() {
                        (members@[i].0@, model_of(members@[i].1))
                    } else {
                        (Seq::empty(), JsonView::Null)
                    },
            ),
        ),
    }
}

impl View for JsonValue {
    type V = JsonView;

    open spec fn view(&self) -> JsonView {
        model_of(*self)
    }
}

/// The value of the first member at or after position `start` whose key is
/// `key`, if there is one.
pub open spec fn member_from(members: Seq<(Seq<char>, JsonView)>, key: Seq<char>, start: int) -> Option<
    JsonView,
>
    decreases members.len() - start,
{
    if start < 0 || start >= members.len() {
        None
    } else if members[start].0 == key {
        Some(members[start].1)
    } else {
        member_from(members, key, start + 1)
    }
}

impl JsonView {
    /// The member of an object under `key`; `None` for a missing key and
    /// for a value that is no object.
    pub open spec fn find(self, key: Seq<char>) -> Option<JsonView> {
        match self {
            JsonView::Object(members) => member_from(members, key, 0),
            _ => None,
        }
    }

    /// The text of a string value.
    pub open spec fn as_string(self) -> Option<Seq<char>> {
        match self {
            JsonView::String(s) => Some(s),
            _ => None,
        }
    }

    /// The items of an array value.
    pub open spec fn as_array(self) -> Option<Seq<JsonView>> {
        match self {
            JsonView::Array(items) => Some(items),
            _ => None,
        }
    }

    /// The members of an object value.
    pub open spec fn as_object(self) -> Option<Seq<(Seq<char>, JsonView)>> {
        match self {
            JsonView::Object(members) => Some(members),
            _ => None,
        }
    }

    /// The string found under `key`: `None` when the key is missing or its
    /// value is no string.
    pub open spec fn string_at(self, key: Seq<char>) -> Option<Seq<char>> {
        match self.find(key) {
            Some(v) => v.as_string(),
            None => None,
        }
    }

    /// Whether arrays and objects nest at most `depth` levels deep.
    pub open spec fn nests_within(self, depth: nat) -> bool
        decreases self,
    {
        match self {
            JsonView::Array(items) => depth > 0 && forall|i: int|
                0 <= i < items.len() ==> (#[trigger] items[i]).nests_within((depth - 1) as nat),
            JsonView::Object(members) => depth > 0 && forall|i: int|
                0 <= i < members.len() ==> (#[trigger] members[i]).1.nests_within(
                    (depth - 1) as nat,
                ),
            _ => true,
        }
    }

    /// Whether no floating-point number occurs anywhere in the value.
    pub open spec fn float_free(self) -> bool
        decreases self,
    {
        match self {
            JsonView::F64 => false,
            JsonView::Array(items) => forall|i: int|
                0 <= i < items.len() ==> (#[trigger] items[i]).float_free(),
            JsonView::Object(members) => forall|i: int|
                0 <= i < members.len() ==> (#[trigger] members[i]).1.float_free(),
            _ => true,
        }
    }
}

impl JsonValue {
    /// Looks up `key` in an object.
    pub fn find(&self, key: &str) -> (r: Option<&JsonValue>)
        ensures
            match r {
                Some(v) => self@.find(key@) == Some(v@),
                None => self@.find(key@) is None,
            },
    {
        match self {
            JsonValue::Object(members) => {
                let mut i: usize = 0;
                while i < members.len()
                    invariant
                        i <= members.len(),
                        self@ is Object,
                        self@->Object_0.len() == members@.len(),
                        forall|j: int|
                            0 <= j < members@.len() ==> #[trigger] self@->Object_0[j] == (
                                members@[j].0@,
                                members@[j].1@,
                            ),
                        self@.find(key@) == member_from(self@->Object_0, key@, i as int),
                    decreases members.len() - i,
                {
                    if str_eq(members[i].0.as_str(), key) {
                        return Some(&members[i].1);
                    }
                    i += 1;
                }
                None
            },
            _ => None,
        }
    }

    /// The text of a string value.
    pub fn as_string(&self) -> (r: Option<&str>)
        ensures
            match r {
                Some(s) => self@.as_string() == Some(s@),
                None => self@.as_string() is None,
            },
    {
        match self {
            JsonValue::String(s) => Some(s.as_str()),
            _ => None,
        }
    }

    /// The items of an array value.
    pub fn as_array(&self) -> (r: Option<&Vec<JsonValue>>)
        ensures
            match r {
                Some(items) => self@.as_array() == Some(items_view(items@)),
                None => self@.as_array() is None,
            },
    {
        match self {
            JsonValue::Array(items) => {
                assert(self@->Array_0 =~= items_view(items@));
                Some(items)
            },
            _ => None,
        }
    }

    /// The members of an object value.
    pub fn as_object(&self) -> (r: Option<&Vec<(String, JsonValue)>>)
        ensures
            match r {
                Some(members) => self@.as_object() == Some(members_view(members@)),
                None => self@.as_object() is None,
            },
    {
        match self {
            JsonValue::Object(members) => {
                assert(self@->Object_0 =~= members_view(members@));
                Some(members)
            },
            _ => None,
        }
    }
}

/// The models of the items of an array, in order.
pub open spec fn items_view(items: Seq<JsonValue>) -> Seq<JsonView> {
    Seq::new(items.len(), |i: int| items[i]@)
}

/// The models of the members of an object, in order.
pub open spec fn members_view(members: Seq<(String, JsonValue)>) -> Seq<(Seq<char>, JsonView)> {
    Seq::new(members.len(), |i: int| (members[i].0@, members[i].1@))
}

} // verus!
