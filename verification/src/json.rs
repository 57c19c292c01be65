//! JSON documents as plain values.
//!
//! Numbers are kept by what is read of them: an integer that fits in 64 bits
//! by its value, any other number by its text and its whole part.
use vstd::prelude::*;

use crate::text::str_eq;

verus! {

/// A JSON document.
#[derive(Debug, PartialEq)]
pub enum JsonValue {
    Null,
    Bool(bool),
    /// An integer in the range of `i64`.
    Int(i64),
    /// An integer above the range of `i64`.
    Large(u64),
    /// A number with a fraction or an exponent: its text, and its value rounded
    /// towards zero and brought into the range of `i64`.
    Float { text: String, whole: i64 },
    Text(String),
    Array(Vec<JsonValue>),
    /// The members of an object. Where a key stands twice, the later one counts.
    Object(Vec<(String, JsonValue)>),
}

/// The document that a [`JsonValue`] holds.
pub enum JsonModel {
    Null,
    Bool(bool),
    Int(i64),
    Large(u64),
    Float { text: Seq<char>, whole: i64 },
    Text(Seq<char>),
    Array(Seq<JsonModel>),
    Object(Seq<(Seq<char>, JsonModel)>),
}

impl View for JsonValue {
    type V = JsonModel;

    open spec fn view(&self) -> JsonModel {
        self.model()
    }
}

/// The value of a key: the last member that carries it.
pub open spec fn member(members: Seq<(Seq<char>, JsonModel)>, key: Seq<char>) -> Option<JsonModel>
    decreases members.len(),
{
    if members.len() == 0 {
        None
    } else if members.last().0 == key {
        Some(members.last().1)
    } else {
        member(members.drop_last(), key)
    }
}

/// An object without members.
pub open spec fn json_object() -> JsonModel {
    JsonModel::Object(Seq::empty())
}

/// An array without items.
pub open spec fn json_array() -> JsonModel {
    JsonModel::Array(Seq::empty())
}

impl JsonModel {
    /// The object with one member more.
    pub open spec fn with(self, key: Seq<char>, value: JsonModel) -> JsonModel {
        JsonModel::Object(self->Object_0.push((key, value)))
    }

    /// The array with one item more.
    pub open spec fn item(self, value: JsonModel) -> JsonModel {
        JsonModel::Array(self->Array_0.push(value))
    }

    /// The member of an object; nothing for any other document.
    pub open spec fn get(self, key: Seq<char>) -> Option<JsonModel> {
        match self {
            JsonModel::Object(members) => member(members, key),
            _ => None,
        }
    }

    /// The text that stands at a member of an object.
    pub open spec fn text_at(self, key: Seq<char>) -> Option<Seq<char>> {
        match self.get(key) {
            Some(JsonModel::Text(t)) => Some(t),
            _ => None,
        }
    }

    pub open spec fn as_bool(self) -> Option<bool> {
        match self {
            JsonModel::Bool(b) => Some(b),
            _ => None,
        }
    }

    pub open spec fn as_i64(self) -> Option<i64> {
        match self {
            JsonModel::Int(n) => Some(n),
            _ => None,
        }
    }

    pub open spec fn as_str(self) -> Option<Seq<char>> {
        match self {
            JsonModel::Text(t) => Some(t),
            _ => None,
        }
    }
}

/// A count, as a document.
pub open spec fn json_count(n: nat) -> JsonModel {
    if n <= i64::MAX {
        JsonModel::Int(n as i64)
    } else {
        JsonModel::Large(n as u64)
    }
}

/// The optional text, as a document: null where there is none.
pub open spec fn optional_text(t: Option<Seq<char>>) -> JsonModel {
    match t {
        Some(t) => JsonModel::Text(t),
        None => JsonModel::Null,
    }
}

/// The characters of an optional string.
pub open spec fn opt_view(t: Option<String>) -> Option<Seq<char>> {
    match t {
        Some(s) => Some(s@),
        None => None,
    }
}

impl JsonValue {
    pub open spec fn model(self) -> JsonModel
        decreases self,
    {
        match self {
            JsonValue::Null => JsonModel::Null,
            JsonValue::Bool(b) => JsonModel::Bool(b),
            JsonValue::Int(n) => JsonModel::Int(n),
            JsonValue::Large(n) => JsonModel::Large(n),
            JsonValue::Float { text, whole } => JsonModel::Float { text: text@, whole },
            JsonValue::Text(s) => JsonModel::Text(s@),
            JsonValue::Array(items) => JsonModel::Array(
                Seq::new(
                    items@.len(),
                    |i: int|
                        if 0 <= i < items@.len() {
                            items@[i].model()
                        } else {
                            JsonModel::Null
                        },
                ),
            ),
            JsonValue::Object(members) => JsonModel::Object(
                Seq::new(
                    members@.len(),
                    |i: int|
                        if 0 <= i < members@.len() {
                            (members@[i].0@, members@[i].1.model())
                        } else {
                            (Seq::empty(), JsonModel::Null)
                        },
                ),
            ),
        }
    }

    /// A text.
    pub fn text(s: &str) -> (r: JsonValue)
        ensures
            r@ == JsonModel::Text(s@),
    {
        JsonValue::Text(s.to_owned())
    }

    /// A text, or null where there is none.
    pub fn opt_text(s: &Option<String>) -> (r: JsonValue)
        ensures
            r@ == optional_text(opt_view(*s)),
    {
        match s {
            Some(t) => JsonValue::text(t.as_str()),
            None => JsonValue::Null,
        }
    }

    /// A count.
    pub fn count(n: usize) -> (r: JsonValue)
        ensures
            r@ == json_count(n as nat),
    {
        if n as u64 <= i64::MAX as u64 {
            JsonValue::Int(n as i64)
        } else {
            JsonValue::Large(n as u64)
        }
    }

    /// An object without members.
    pub fn object() -> (r: JsonValue)
        ensures
            r@ == json_object(),
    {
        let r = JsonValue::Object(Vec::new());
        assert(r@->Object_0 =~= Seq::empty());
        r
    }

    /// An array without items.
    pub fn array() -> (r: JsonValue)
        ensures
            r@ == json_array(),
    {
        let r = JsonValue::Array(Vec::new());
        assert(r@->Array_0 =~= Seq::empty());
        r
    }

    /// The object with one member more.
    pub fn with(self, key: &str, value: JsonValue) -> (r: JsonValue)
        requires
            self@ is Object,
        ensures
            r@ == self@.with(key@, value@),
            r@ is Object,
    {
        match self {
            JsonValue::Object(members) => {
                let mut grown = members;
                grown.push((key.to_owned(), value));
                let r = JsonValue::Object(grown);
                assert(r@->Object_0 =~= self@->Object_0.push((key@, value@)));
                r
            },
            other => other,
        }
    }

    /// The array with one item more.
    pub fn item(self, value: JsonValue) -> (r: JsonValue)
        requires
            self@ is Array,
        ensures
            r@ == self@.item(value@),
            r@ is Array,
    {
        match self {
            JsonValue::Array(items) => {
                let mut grown = items;
                grown.push(value);
                let r = JsonValue::Array(grown);
                assert(r@->Array_0 =~= self@->Array_0.push(value@));
                r
            },
            other => other,
        }
    }

    pub fn as_bool(&self) -> (r: Option<bool>)
        ensures
            r == self@.as_bool(),
    {
        match self {
            JsonValue::Bool(b) => Some(*b),
            _ => None,
        }
    }

    pub fn as_i64(&self) -> (r: Option<i64>)
        ensures
            r == self@.as_i64(),
    {
        match self {
            JsonValue::Int(n) => Some(*n),
            _ => None,
        }
    }

    pub fn as_str(&self) -> (r: Option<&str>)
        ensures
            match r {
                Some(t) => self@.as_str() == Some(t@),
                None => self@.as_str() is None,
            },
    {
        match self {
            JsonValue::Text(t) => Some(t.as_str()),
            _ => None,
        }
    }

    /// The member of an object; nothing for any other document.
    pub fn get(&self, key: &str) -> (r: Option<&JsonValue>)
        ensures
            match r {
                Some(v) => self@.get(key@) == Some(v@),
                None => self@.get(key@) is None,
            },
    {
        match self {
            JsonValue::Object(members) => {
                let ghost all = self@->Object_0;
                let mut n: usize = members.len();
                assert(all.take(n as int) =~= all);
                while n > 0
                    invariant
                        n <= members@.len(),
                        self@ == JsonModel::Object(all),
                        all.len() == members@.len(),
                        forall|i: int|
                            0 <= i < all.len() ==> #[trigger] all[i] == (
                                members@[i].0@,
                                members@[i].1@,
                            ),
                        member(all.take(n as int), key@) == member(all, key@),
                    decreases n,
                {
                    proof {
                        assert(all.take(n as int).drop_last() =~= all.take(n - 1));
                        assert(all.take(n as int).last() == all[n - 1]);
                    }
                    if str_eq(members[n - 1].0.as_str(), key) {
                        return Some(&members[n - 1].1);
                    }
                    n = n - 1;
                }
                None
            },
            _ => None,
        }
    }

    /// The text that stands at a member of an object.
    pub fn text_at(&self, key: &str) -> (r: Option<String>)
        ensures
            opt_view(r) == self@.text_at(key@),
    {
        match self.get(key) {
            Some(v) => match v.as_str() {
                Some(t) => Some(t.to_owned()),
                None => None,
            },
            None => None,
        }
    }
}

impl Clone for JsonValue {
    fn clone(&self) -> (r: JsonValue)
        ensures
            r@ == self@,
        decreases self,
    {
        match self {
            JsonValue::Null => JsonValue::Null,
            JsonValue::Bool(b) => JsonValue::Bool(*b),
            JsonValue::Int(n) => JsonValue::Int(*n),
            JsonValue::Large(n) => JsonValue::Large(*n),
            JsonValue::Float { text, whole } => JsonValue::Float {
                text: text.clone(),
                whole: *whole,
            },
            JsonValue::Text(t) => JsonValue::Text(t.clone()),
            JsonValue::Array(items) => {
                let mut out: Vec<JsonValue> = Vec::new();
                let mut i: usize = 0;
                while i < items.len()
                    invariant
                        i <= items@.len(),
                        self == JsonValue::Array(*items),
                        out@.len() == i,
                        forall|j: int| 0 <= j < i ==> (#[trigger] out@[j])@ == items@[j]@,
                    decreases items@.len() - i,
                {
                    assert(decreases_to!(self => self->Array_0@[i as int]));
                    out.push(items[i].clone());
                    i = i + 1;
                }
                let r = JsonValue::Array(out);
                assert(r@->Array_0 =~= self@->Array_0);
                r
            },
            JsonValue::Object(members) => {
                let mut out: Vec<(String, JsonValue)> = Vec::new();
                let mut i: usize = 0;
                while i < members.len()
                    invariant
                        i <= members@.len(),
                        self == JsonValue::Object(*members),
                        out@.len() == i,
                        forall|j: int|
                            0 <= j < i ==> (#[trigger] out@[j]).0@ == members@[j].0@ && out@[j].1@
                                == members@[j].1@,
                    decreases members@.len() - i,
                {
                    assert(decreases_to!(self => self->Object_0@[i as int].1));
                    out.push((members[i].0.clone(), members[i].1.clone()));
                    i = i + 1;
                }
                let r = JsonValue::Object(out);
                assert(r@->Object_0 =~= self@->Object_0);
                r
            },
        }
    }
}

/// What an object holds at a key after one more member was added.
pub proof fn lemma_member_of_push(
    members: Seq<(Seq<char>, JsonModel)>,
    key: Seq<char>,
    value: JsonModel,
    wanted: Seq<char>,
)
    ensures
        member(members.push((key, value)), wanted) == if key == wanted {
            Some(value)
        } else {
            member(members, wanted)
        },
{
    let grown = members.push((key, value));
    assert(grown.last() == (key, value));
    assert(grown.drop_last() =~= members);
}

/// What an object holds after one more member was added: the new value under its
/// key, and under every other key what it held before.
pub proof fn lemma_with(doc: JsonModel, key: Seq<char>, value: JsonModel)
    requires
        doc is Object,
    ensures
        doc.with(key, value) is Object,
        forall|wanted: Seq<char>| #[trigger]
            doc.with(key, value).get(wanted) == if key == wanted {
                Some(value)
            } else {
                doc.get(wanted)
            },
{
    assert forall|wanted: Seq<char>| #[trigger]
        doc.with(key, value).get(wanted) == if key == wanted {
            Some(value)
        } else {
            doc.get(wanted)
        } by {
        lemma_member_of_push(doc->Object_0, key, value, wanted);
    }
}

/// A lookup finds the last member that carries the key, and nothing where none
/// does.
pub proof fn law_lookup_finds_the_last(
    members: Seq<(Seq<char>, JsonModel)>,
    key: Seq<char>,
    at: int,
)
    ensures
        0 <= at < members.len() && members[at].0 == key && (forall|k: int|
            at < k < members.len() ==> (#[trigger] members[k]).0 != key) ==> JsonModel::Object(
            members,
        ).get(key) == Some(members[at].1),
        (forall|k: int| 0 <= k < members.len() ==> (#[trigger] members[k]).0 != key)
            ==> JsonModel::Object(members).get(key) is None,
    decreases members.len(),
{
    if members.len() > 0 {
        let before = members.drop_last();
        law_lookup_finds_the_last(before, key, at);
        if at < members.len() - 1 {
            if 0 <= at && members[at].0 == key && (forall|k: int|
                at < k < members.len() ==> (#[trigger] members[k]).0 != key) {
                assert(before[at] == members[at]);
                assert(members[members.len() - 1].0 != key);
                assert forall|k: int| at < k < before.len() implies (#[trigger] before[k]).0
                    != key by {
                    assert(before[k] == members[k]);
                }
            }
        }
        if forall|k: int| 0 <= k < members.len() ==> (#[trigger] members[k]).0 != key {
            assert(members[members.len() - 1].0 != key);
            assert forall|k: int| 0 <= k < before.len() implies (#[trigger] before[k]).0 != key by {
                assert(before[k] == members[k]);
            }
        }
    }
}

/// A count is the whole number itself, a missing text is null, and building keeps
/// what was put in: an added item comes last, an added member is found.
pub proof fn law_documents_hold_what_was_put_in(
    n: nat,
    t: Seq<char>,
    doc: JsonModel,
    key: Seq<char>,
    value: JsonModel,
)
    ensures
        n <= i64::MAX ==> json_count(n) == JsonModel::Int(n as i64),
        i64::MAX < n <= u64::MAX ==> json_count(n) == JsonModel::Large(n as u64),
        optional_text(Some(t)) == JsonModel::Text(t),
        optional_text(None) is Null,
        doc is Object ==> doc.with(key, value).get(key) == Some(value),
        doc matches JsonModel::Array(items) ==> doc.item(value) == JsonModel::Array(
            items.push(value),
        ),
        json_object().get(key) is None,
        json_array() == JsonModel::Array(Seq::empty()),
{
    if doc is Object {
        lemma_with(doc, key, value);
    }
}

/// What can be read of a document: a truth value, an integer or a text only of
/// just that kind of document, and the text at a key where one stands there.
pub proof fn law_what_can_be_read(doc: JsonModel, key: Seq<char>, b: bool, n: i64, t: Seq<char>)
    ensures
        doc.as_bool() == Some(b) <==> doc == JsonModel::Bool(b),
        doc.as_i64() == Some(n) <==> doc == JsonModel::Int(n),
        doc.as_str() == Some(t) <==> doc == JsonModel::Text(t),
        doc.text_at(key) == Some(t) <==> doc.get(key) == Some(JsonModel::Text(t)),
        !(doc is Object) ==> doc.get(key) is None,
{
}

} // verus!
