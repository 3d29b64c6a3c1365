//! A JSON value as a tree of the library's own, and its text.
//!
//! The tree is what the document codecs read and build. Reading a text into a
//! tree and printing a tree are left to `serde_json`; the two results have
//! names here, and the contracts of this library speak of the names.

use vstd::prelude::*;
use crate::error::Error;

verus! {

/// One entry of a JSON object.
#[derive(Debug)]
pub struct Member {
    pub key: String,
    pub value: JsonValue,
}

/// A JSON value. A number is held as its literal, so that no precision is
/// lost between reading and printing.
#[derive(Debug)]
pub enum JsonValue {
    Null,
    Bool(bool),
    Number(String),
    Text(String),
    Array(Vec<JsonValue>),
    Object(Vec<Member>),
}

/// The mathematical value of a [`Member`].
pub ghost struct MemberModel {
    pub key: Seq<char>,
    pub value: JsonModel,
}

/// The mathematical value of a [`JsonValue`].
pub ghost enum JsonModel {
    Null,
    Bool(bool),
    Number(Seq<char>),
    Text(Seq<char>),
    Array(Seq<JsonModel>),
    Object(Seq<MemberModel>),
}

impl View for Member {
    type V = MemberModel;

    open spec fn view(&self) -> MemberModel
        decreases self,
    {
        MemberModel { key: self.key@, value: self.value@ }
    }
}

impl View for JsonValue {
    type V = JsonModel;

    open spec fn view(&self) -> JsonModel
        decreases self,
    {
        match self {
            JsonValue::Null => JsonModel::Null,
            JsonValue::Bool(b) => JsonModel::Bool(*b),
            JsonValue::Number(literal) => JsonModel::Number(literal@),
            JsonValue::Text(text) => JsonModel::Text(text@),
            JsonValue::Array(items) => JsonModel::Array(
                Seq::new(
                    items.len() as nat,
                    |i: int|
                        if 0 <= i < items.len() {
                            items[i]@
                        } else {
                            JsonModel::Null
                        },
                ),
            ),
            JsonValue::Object(members) => JsonModel::Object(
                Seq::new(
                    members.len() as nat,
                    |i: int|
                        if 0 <= i < members.len() {
                            members[i]@
                        } else {
                            MemberModel { key: Seq::empty(), value: JsonModel::Null }
                        },
                ),
            ),
        }
    }
}

/// The value of an array is the sequence of the values of its items.
pub proof fn lemma_view_array(items: Vec<JsonValue>)
    ensures
        JsonValue::Array(items)@ == JsonModel::Array(items.deep_view()),
{
    assert(JsonValue::Array(items)@->Array_0 =~= items.deep_view());
}

/// The value of an object is the sequence of the values of its entries.
pub proof fn lemma_view_object(members: Vec<Member>)
    ensures
        JsonValue::Object(members)@ == JsonModel::Object(members.deep_view()),
{
    assert(JsonValue::Object(members)@->Object_0 =~= members.deep_view());
}

impl Clone for Member {
    fn clone(&self) -> (copy: Member)
        ensures
            copy@ == self@,
        decreases self,
    {
        Member { key: self.key.clone(), value: self.value.clone() }
    }
}

impl Clone for JsonValue {
    fn clone(&self) -> (copy: JsonValue)
        ensures
            copy@ == self@,
        decreases self,
    {
        match self {
            JsonValue::Null => JsonValue::Null,
            JsonValue::Bool(b) => JsonValue::Bool(*b),
            JsonValue::Number(literal) => JsonValue::Number(literal.clone()),
            JsonValue::Text(text) => JsonValue::Text(text.clone()),
            JsonValue::Array(items) => {
                let mut copies: Vec<JsonValue> = Vec::new();
                let mut i: usize = 0;
                while i < items.len()
                    invariant
                        i <= items.len(),
                        copies.len() == i,
                        *self == JsonValue::Array(*items),
                        forall|j: int| 0 <= j < i ==> copies[j]@ == items[j]@,
                    decreases items.len() - i,
                {
                    proof {
                        vstd::std_specs::vec::axiom_vec_index_decreases(*items, i as int);
                        assert(*items == self->Array_0);
                    }
                    copies.push(items[i].clone());
                    i += 1;
                }
                proof {
                    lemma_view_array(copies);
                    lemma_view_array(*items);
                    assert(copies.deep_view() =~= items.deep_view());
                }
                JsonValue::Array(copies)
            },
            JsonValue::Object(members) => {
                let mut copies: Vec<Member> = Vec::new();
                let mut i: usize = 0;
                while i < members.len()
                    invariant
                        i <= members.len(),
                        copies.len() == i,
                        *self == JsonValue::Object(*members),
                        forall|j: int| 0 <= j < i ==> copies[j]@ == members[j]@,
                    decreases members.len() - i,
                {
                    proof {
                        vstd::std_specs::vec::axiom_vec_index_decreases(*members, i as int);
                        assert(*members == self->Object_0);
                    }
                    copies.push(members[i].clone());
                    i += 1;
                }
                proof {
                    lemma_view_object(copies);
                    lemma_view_object(*members);
                    assert(copies.deep_view() =~= members.deep_view());
                }
                JsonValue::Object(copies)
            },
        }
    }
}

impl DeepView for Member {
    type V = MemberModel;

    open spec fn deep_view(&self) -> MemberModel {
        self@
    }
}

impl DeepView for JsonValue {
    type V = JsonModel;

    open spec fn deep_view(&self) -> JsonModel {
        self@
    }
}

/// The value under the first entry of `members` whose key is `key`.
pub open spec fn lookup(members: Seq<MemberModel>, key: Seq<char>) -> Option<JsonModel>
    decreases members.len(),
{
    if members.len() == 0 {
        None
    } else if members[0].key == key {
        Some(members[0].value)
    } else {
        lookup(members.skip(1), key)
    }
}

/// Where no earlier entry has the key of entry `i`, looking that key up
/// gives the value of entry `i`.
pub proof fn lemma_lookup_first(members: Seq<MemberModel>, i: int)
    requires
        0 <= i < members.len(),
        forall|j: int| 0 <= j < i ==> (#[trigger] members[j]).key != members[i].key,
    ensures
        lookup(members, members[i].key) == Some(members[i].value),
    decreases i,
{
    if i > 0 {
        let rest = members.skip(1);
        assert(rest[i - 1] == members[i]);
        assert forall|j: int| 0 <= j < i - 1 implies (#[trigger] rest[j]).key != rest[i - 1].key by {
            assert(rest[j] == members[j + 1]);
        }
        lemma_lookup_first(rest, i - 1);
    }
}

/// The tree that `serde_json` reads from a text; `None` where it rejects the text.
pub uninterp spec fn json_parsed(text: Seq<char>) -> Option<JsonModel>;

/// The text that `serde_json` prints for a tree.
pub uninterp spec fn json_text(value: JsonModel) -> Seq<char>;

/// The text that `serde_json` prints for a tree when it indents it.
pub uninterp spec fn json_pretty_text(value: JsonModel) -> Seq<char>;

impl JsonModel {
    /// The tree reads back from its own text as itself: its objects are in the
    /// order and its numbers in the spelling that printing gives them.
    pub open spec fn canonical(self) -> bool {
        json_parsed(json_text(self)) == Some(self)
    }

    /// The entry `key` of an object; `None` for any other value and for an
    /// object without that key.
    pub open spec fn field(self, key: Seq<char>) -> Option<JsonModel> {
        match self {
            JsonModel::Object(members) => lookup(members, key),
            _ => None,
        }
    }
}

/// `serde_json::Value`, which the two functions below build and take apart.
/// Nothing is known here of what a value of it holds.
#[verifier::external_type_specification]
#[verifier::external_body]
pub struct ExOutsideJson(serde_json::Value);

/// Builds the `serde_json::Value` that stands for a tree, node for node,
/// with `serde_json::from_str` for the literal of a number. A literal that
/// `serde_json` does not read as a number becomes `null`.
#[verifier::external_body]
pub(crate) fn to_outside(value: &JsonValue) -> serde_json::Value {
    match value {
        JsonValue::Null => serde_json::Value::Null,
        JsonValue::Bool(b) => serde_json::Value::Bool(*b),
        JsonValue::Number(n) => serde_json::from_str(n).map_or(
            serde_json::Value::Null,
            serde_json::Value::Number,
        ),
        JsonValue::Text(s) => serde_json::Value::String(s.clone()),
        JsonValue::Array(items) => serde_json::Value::Array(items.iter().map(to_outside).collect()),
        JsonValue::Object(members) => serde_json::Value::Object(
            members.iter().map(|m| (m.key.clone(), to_outside(&m.value))).collect(),
        ),
    }
}

/// Builds the tree that stands for a `serde_json::Value`, node for node. A
/// number becomes the literal that `serde_json::Number` displays.
#[verifier::external_body]
pub(crate) fn from_outside(value: &serde_json::Value) -> JsonValue {
    match value {
        serde_json::Value::Null => JsonValue::Null,
        serde_json::Value::Bool(b) => JsonValue::Bool(*b),
        serde_json::Value::Number(n) => JsonValue::Number(n.to_string()),
        serde_json::Value::String(s) => JsonValue::Text(s.clone()),
        serde_json::Value::Array(items) => JsonValue::Array(items.iter().map(from_outside).collect()),
        serde_json::Value::Object(members) => JsonValue::Object(
            members.iter().map(|(k, v)| Member { key: k.clone(), value: from_outside(v) }).collect(),
        ),
    }
}

/// `serde_json::from_str`, read as a `serde_json::Value`. The contract names
/// the tree that comes out.
#[verifier::external_body]
fn read_text(text: &str) -> (outcome: Result<JsonValue, String>)
    ensures
        match outcome {
            Ok(value) => json_parsed(text@) == Some(value@),
            Err(_) => json_parsed(text@) is None,
        },
{
    match serde_json::from_str::<serde_json::Value>(text) {
        Ok(value) => Ok(from_outside(&value)),
        Err(error) => Err(error.to_string()),
    }
}

/// `serde_json::to_string` on the `serde_json::Value` that stands for the
/// tree. The contract names the text that comes out.
#[verifier::external_body]
fn print_text(value: &JsonValue) -> (text: String)
    ensures
        text@ == json_text(value@),
{
    serde_json::to_string(&to_outside(value)).unwrap_or_default()
}

/// `serde_json::to_string_pretty` on the `serde_json::Value` that stands for
/// the tree. The contract names the text that comes out.
#[verifier::external_body]
fn print_pretty(value: &JsonValue) -> (text: String)
    ensures
        text@ == json_pretty_text(value@),
{
    serde_json::to_string_pretty(&to_outside(value)).unwrap_or_default()
}

impl JsonValue {
    /// Reads a JSON text. Fails with `MalformedInput` exactly where
    /// `serde_json` rejects the text.
    pub fn parse(text: &str) -> (outcome: Result<JsonValue, Error>)
        ensures
            match outcome {
                Ok(value) => json_parsed(text@) == Some(value@),
                Err(error) => json_parsed(text@) is None && error.failure()
                    == crate::error::Failure::MalformedInput,
            },
    {
        match read_text(text) {
            Ok(value) => Ok(value),
            Err(reason) => Err(Error::MalformedInput(reason)),
        }
    }

    /// The JSON text of the tree.
    pub fn to_text(&self) -> (text: String)
        ensures
            text@ == json_text(self@),
    {
        print_text(self)
    }

    /// The JSON text of the tree, indented.
    pub fn to_pretty_text(&self) -> (text: String)
        ensures
            text@ == json_pretty_text(self@),
    {
        print_pretty(self)
    }

    /// Whether two trees are the same value.
    pub fn same_as(&self, other: &JsonValue) -> (same: bool)
        ensures
            same == (self@ == other@),
        decreases self,
    {
        match (self, other) {
            (JsonValue::Null, JsonValue::Null) => true,
            (JsonValue::Bool(a), JsonValue::Bool(b)) => *a == *b,
            (JsonValue::Number(a), JsonValue::Number(b)) => *a == *b,
            (JsonValue::Text(a), JsonValue::Text(b)) => *a == *b,
            (JsonValue::Array(a), JsonValue::Array(b)) => {
                proof {
                    lemma_view_array(*a);
                    lemma_view_array(*b);
                }
                if a.len() != b.len() {
                    assert(a.deep_view().len() != b.deep_view().len());
                    return false;
                }
                let mut i: usize = 0;
                while i < a.len()
                    invariant
                        i <= a.len(),
                        a.len() == b.len(),
                        *self == JsonValue::Array(*a),
                        self@ == JsonModel::Array(a.deep_view()),
                        other@ == JsonModel::Array(b.deep_view()),
                        forall|j: int| 0 <= j < i ==> a.deep_view()[j] == b.deep_view()[j],
                    decreases a.len() - i,
                {
                    proof {
                        vstd::std_specs::vec::axiom_vec_index_decreases(*a, i as int);
                        assert(*a == self->Array_0);
                    }
                    if !a[i].same_as(&b[i]) {
                        assert(a.deep_view()[i as int] != b.deep_view()[i as int]);
                        return false;
                    }
                    i += 1;
                }
                assert(a.deep_view() =~= b.deep_view());
                true
            },
            (JsonValue::Object(a), JsonValue::Object(b)) => {
                proof {
                    lemma_view_object(*a);
                    lemma_view_object(*b);
                }
                if a.len() != b.len() {
                    assert(a.deep_view().len() != b.deep_view().len());
                    return false;
                }
                let mut i: usize = 0;
                while i < a.len()
                    invariant
                        i <= a.len(),
                        a.len() == b.len(),
                        *self == JsonValue::Object(*a),
                        self@ == JsonModel::Object(a.deep_view()),
                        other@ == JsonModel::Object(b.deep_view()),
                        forall|j: int| 0 <= j < i ==> a.deep_view()[j] == b.deep_view()[j],
                    decreases a.len() - i,
                {
                    proof {
                        vstd::std_specs::vec::axiom_vec_index_decreases(*a, i as int);
                        assert(*a == self->Object_0);
                    }
                    let same_key = a[i].key == b[i].key;
                    if !same_key || !a[i].value.same_as(&b[i].value) {
                        assert(a.deep_view()[i as int] != b.deep_view()[i as int]);
                        return false;
                    }
                    i += 1;
                }
                assert(a.deep_view() =~= b.deep_view());
                true
            },
            _ => false,
        }
    }

    /// Whether the tree is canonical: whether its own text reads back as the
    /// tree itself. This prints the tree, reads the text and compares.
    pub fn is_canonical(&self) -> (canonical: bool)
        ensures
            canonical == self@.canonical(),
    {
        match JsonValue::parse(self.to_text().as_str()) {
            Ok(read) => self.same_as(&read),
            Err(_) => false,
        }
    }

    /// The tree that the text of this tree reads as: its objects sorted by
    /// key, each key once, its numbers in one spelling. `None` where the
    /// text does not read as a tree, or as one that reads back as itself.
    pub fn canonicalize(&self) -> (tree: Option<JsonValue>)
        ensures
            tree matches Some(read) ==> json_parsed(json_text(self@)) == Some(read@)
                && read@.canonical(),
            tree is None ==> (match json_parsed(json_text(self@)) {
                Some(read) => !read.canonical(),
                None => true,
            }),
    {
        match JsonValue::parse(self.to_text().as_str()) {
            Ok(read) => if read.is_canonical() {
                Some(read)
            } else {
                None
            },
            Err(_) => None,
        }
    }

    /// The text of a JSON string; `None` for any other value.
    pub fn as_text(&self) -> (text: Option<&String>)
        ensures
            match text {
                Some(t) => self@ == JsonModel::Text(t@),
                None => !(self@ is Text),
            },
    {
        match self {
            JsonValue::Text(text) => Some(text),
            _ => None,
        }
    }

    /// The entry `key` of an object: the first one, should the key occur more
    /// than once. `None` for any other value and for an object without it.
    pub fn get(&self, key: &str) -> (found: Option<&JsonValue>)
        ensures
            found.deep_view() == self@.field(key@),
    {
        match self {
            JsonValue::Object(members) => {
                proof {
                    lemma_view_object(*members);
                }
                find_member(members, key)
            },
            _ => None,
        }
    }
}

/// The value of the first entry of `members` whose key is `key`.
pub fn find_member<'a>(members: &'a Vec<Member>, key: &str) -> (found: Option<&'a JsonValue>)
    ensures
        found.deep_view() == lookup(members.deep_view(), key@),
{
    let wanted = String::from_str(key);
    let mut i: usize = 0;
    assert(members.deep_view().skip(0) =~= members.deep_view());
    while i < members.len()
        invariant
            i <= members.len(),
            wanted@ == key@,
            lookup(members.deep_view(), key@) == lookup(members.deep_view().skip(i as int), key@),
        decreases members.len() - i,
    {
        if members[i].key == wanted {
            return Some(&members[i].value);
        }
        assert(members.deep_view().skip(i as int).skip(1) =~= members.deep_view().skip(i + 1));
        i += 1;
    }
    None
}

} // verus!
