//! JSON values as the tools read and write them.
//!
//! `JsonValue` holds a parsed JSON document as plain values. Numbers keep
//! their integer value where it fits a `u64` or an `i64`; any other number
//! keeps its source text. `Model` stands for a protocol value whose JSON
//! form is its wire serialisation, which the binary writes out.

use crate::models::{
    ApiProjectEntity, BeginProjectsSyncResponse, CreateProjectResponse, DeviceLog,
    IdeasSyncStateResponse, ProjectData, ProjectDataDto, ProjectSynchronizationBegan,
    ProjectsSyncProbeResponse, SavedIdeaDto, StoryIdea,
};
use crate::text::opt_text;
use vstd::prelude::*;

verus! {

/// A protocol value that is rendered in its wire form.
#[derive(Debug)]
pub enum ModelValue {
    ProjectsSync(BeginProjectsSyncResponse),
    CreatedProject(CreateProjectResponse),
    ProjectSync(ProjectSynchronizationBegan),
    Entity(ApiProjectEntity),
    ProjectDataDto(ProjectDataDto),
    ProjectData(ProjectData),
    IdeasState(IdeasSyncStateResponse),
    SavedIdea(SavedIdeaDto),
    Idea(StoryIdea),
    WritingActivity(Vec<(String, DeviceLog)>),
    SyncProbe(ProjectsSyncProbeResponse),
}

#[derive(Debug)]
pub enum JsonValue {
    Null,
    Bool(bool),
    /// An integer that fits an `i64`.
    Int(i64),
    /// An integer above `i64::MAX` that fits a `u64`.
    UInt(u64),
    /// Any other number, by its text.
    Float(String),
    Str(String),
    Array(Vec<JsonValue>),
    /// An object's members, in order; keys are distinct in parsed input.
    Object(Vec<(String, JsonValue)>),
    Model(ModelValue),
}

/// The value of the first member named `key`.
pub open spec fn member(fields: Seq<(String, JsonValue)>, key: Seq<char>) -> Option<JsonValue>
    decreases fields.len(),
{
    if fields.len() == 0 {
        None
    } else if fields[0].0@ == key {
        Some(fields[0].1)
    } else {
        member(fields.drop_first(), key)
    }
}

impl JsonValue {
    /// The member `key` of an object, if there is one.
    pub open spec fn member_of(self, key: Seq<char>) -> Option<JsonValue> {
        match self {
            JsonValue::Object(fields) => member(fields@, key),
            _ => None,
        }
    }

    /// `value[key]`: the member `key` of an object, `Null` for anything else.
    pub open spec fn at(self, key: Seq<char>) -> JsonValue {
        match self.member_of(key) {
            Some(v) => v,
            None => JsonValue::Null,
        }
    }

    pub open spec fn str_of(self) -> Option<Seq<char>> {
        match self {
            JsonValue::Str(s) => Some(s@),
            _ => None,
        }
    }

    pub open spec fn i64_of(self) -> Option<i64> {
        match self {
            JsonValue::Int(n) => Some(n),
            _ => None,
        }
    }

    pub open spec fn bool_of(self) -> Option<bool> {
        match self {
            JsonValue::Bool(b) => Some(b),
            _ => None,
        }
    }

    pub open spec fn array_of(self) -> Option<Seq<JsonValue>> {
        match self {
            JsonValue::Array(items) => Some(items@),
            _ => None,
        }
    }

    /// This value is the string `s`.
    pub open spec fn is_text(self, s: Seq<char>) -> bool {
        self.str_of() == Some(s)
    }

    /// The member of this object with the given key.
    pub fn member(&self, key: &str) -> (r: Option<&JsonValue>)
        ensures
            match r {
                Some(v) => self.member_of(key@) == Some(*v),
                None => self.member_of(key@) is None,
            },
    {
        match self {
            JsonValue::Object(fields) => {
                let k = String::from_str(key);
                let mut i: usize = 0;
                assert(fields@.skip(0) =~= fields@);
                while i < fields.len()
                    invariant
                        0 <= i <= fields@.len(),
                        k@ == key@,
                        self.member_of(key@) == member(fields@, key@),
                        member(fields@, key@) == member(fields@.skip(i as int), key@),
                    decreases fields@.len() - i,
                {
                    assert(fields@.skip(i as int).drop_first() =~= fields@.skip(i + 1));
                    assert(fields@.skip(i as int)[0] == fields@[i as int]);
                    if fields[i].0 == k {
                        assert(fields@[i as int].0@ == key@);
                        assert(member(fields@.skip(i as int), key@) == Some(fields@[i as int].1));
                        return Some(&fields[i].1);
                    }
                    i += 1;
                }
                None
            },
            _ => None,
        }
    }

    /// `value[key].as_str()`, as an owned string.
    pub fn str_at(&self, key: &str) -> (r: Option<String>)
        ensures
            opt_text(r) == self.at(key@).str_of(),
    {
        match self.member(key) {
            Some(JsonValue::Str(s)) => Some(s.clone()),
            _ => None,
        }
    }

    /// `value[key].as_i64()`.
    pub fn i64_at(&self, key: &str) -> (r: Option<i64>)
        ensures
            r == self.at(key@).i64_of(),
    {
        match self.member(key) {
            Some(JsonValue::Int(n)) => Some(*n),
            _ => None,
        }
    }

    /// `value[key].as_bool()`.
    pub fn bool_at(&self, key: &str) -> (r: Option<bool>)
        ensures
            r == self.at(key@).bool_of(),
    {
        match self.member(key) {
            Some(JsonValue::Bool(b)) => Some(*b),
            _ => None,
        }
    }

    /// `value[key].as_array()`.
    pub fn array_at(&self, key: &str) -> (r: Option<&Vec<JsonValue>>)
        ensures
            match r {
                Some(items) => self.at(key@).array_of() == Some(items@),
                None => self.at(key@).array_of() is None,
            },
    {
        match self.member(key) {
            Some(JsonValue::Array(items)) => Some(items),
            _ => None,
        }
    }

    /// The string value `s`.
    pub fn text(s: &str) -> (v: JsonValue)
        ensures
            v.is_text(s@),
    {
        JsonValue::Str(String::from_str(s))
    }
}

/// `a` and `b` are the same JSON to depth `n`: values of one kind with the
/// same text, number or truth value; arrays item by item; objects member
/// by member, keys by their text and in order.
pub open spec fn same_json(a: JsonValue, b: JsonValue, n: nat) -> bool
    decreases n, 0int,
{
    if n == 0 {
        false
    } else {
        match (a, b) {
            (JsonValue::Null, JsonValue::Null) => true,
            (JsonValue::Bool(x), JsonValue::Bool(y)) => x == y,
            (JsonValue::Int(x), JsonValue::Int(y)) => x == y,
            (JsonValue::UInt(x), JsonValue::UInt(y)) => x == y,
            (JsonValue::Float(x), JsonValue::Float(y)) => x@ == y@,
            (JsonValue::Str(x), JsonValue::Str(y)) => x@ == y@,
            (JsonValue::Array(x), JsonValue::Array(y)) => same_items(x@, y@, (n - 1) as nat),
            (JsonValue::Object(x), JsonValue::Object(y)) => same_members(x@, y@, (n - 1) as nat),
            _ => false,
        }
    }
}

/// The items are pairwise the same JSON to depth `n`.
pub open spec fn same_items(x: Seq<JsonValue>, y: Seq<JsonValue>, n: nat) -> bool
    decreases n, x.len(),
{
    if x.len() == 0 {
        y.len() == 0
    } else {
        &&& y.len() == x.len()
        &&& same_json(x.last(), y.last(), n)
        &&& same_items(x.drop_last(), y.drop_last(), n)
    }
}

/// The members have the same keys, by their text, and the same values to
/// depth `n`, pairwise.
pub open spec fn same_members(x: Seq<(String, JsonValue)>, y: Seq<(String, JsonValue)>, n: nat) -> bool
    decreases n, x.len(),
{
    if x.len() == 0 {
        y.len() == 0
    } else {
        &&& y.len() == x.len()
        &&& x.last().0@ == y.last().0@
        &&& same_json(x.last().1, y.last().1, n)
        &&& same_members(x.drop_last(), y.drop_last(), n)
    }
}

/// Items that are pairwise the same JSON are the same items.
pub proof fn lemma_same_items(x: Seq<JsonValue>, y: Seq<JsonValue>, n: nat)
    requires
        x.len() == y.len(),
        forall|i: int| 0 <= i < x.len() ==> #[trigger] same_json(x[i], y[i], n),
    ensures
        same_items(x, y, n),
    decreases x.len(),
{
    if x.len() > 0 {
        assert(same_json(x[x.len() - 1], y[y.len() - 1], n));
        assert forall|i: int| 0 <= i < x.drop_last().len() implies #[trigger] same_json(
            x.drop_last()[i],
            y.drop_last()[i],
            n,
        ) by {
            assert(same_json(x[i], y[i], n));
        }
        lemma_same_items(x.drop_last(), y.drop_last(), n);
    }
}

/// Members that pairwise share keys and values are the same members.
pub proof fn lemma_same_members(x: Seq<(String, JsonValue)>, y: Seq<(String, JsonValue)>, n: nat)
    requires
        x.len() == y.len(),
        forall|i: int| 0 <= i < x.len() ==> #[trigger] x[i].0@ == y[i].0@,
        forall|i: int| 0 <= i < x.len() ==> #[trigger] same_json(x[i].1, y[i].1, n),
    ensures
        same_members(x, y, n),
    decreases x.len(),
{
    if x.len() > 0 {
        let xs = x.drop_last();
        let ys = y.drop_last();
        assert(x[x.len() - 1].0@ == y[y.len() - 1].0@);
        assert(same_json(x[x.len() - 1].1, y[y.len() - 1].1, n));
        assert forall|i: int| 0 <= i < xs.len() implies #[trigger] xs[i].0@ == ys[i].0@ by {
            assert(xs[i] == x[i]);
            assert(ys[i] == y[i]);
            assert(x[i].0@ == y[i].0@);
        }
        assert forall|i: int| 0 <= i < xs.len() implies #[trigger] same_json(xs[i].1, ys[i].1, n) by {
            assert(xs[i] == x[i]);
            assert(ys[i] == y[i]);
            assert(same_json(x[i].1, y[i].1, n));
        }
        lemma_same_members(xs, ys, n);
    }
}

/// `v` is an object whose members have these keys, in this order.
pub open spec fn is_object(v: JsonValue, keys: Seq<Seq<char>>) -> bool {
    v matches JsonValue::Object(f) && f@.len() == keys.len() && forall|i: int|
        0 <= i < keys.len() ==> #[trigger] f@[i].0@ == keys[i]
}

/// The value of the `i`th member of an object.
pub open spec fn field_value(v: JsonValue, i: int) -> JsonValue {
    match v {
        JsonValue::Object(f) => f@[i].1,
        _ => JsonValue::Null,
    }
}

/// The members of an object, each key by its view and each value by its
/// text when it is a string.
pub open spec fn member_texts(f: Seq<(String, JsonValue)>) -> Seq<(Seq<char>, Option<Seq<char>>)> {
    f.map_values(|m: (String, JsonValue)| (m.0@, m.1.str_of()))
}

/// Appends the member `(key, value)`.
pub fn push_member(fields: &mut Vec<(String, JsonValue)>, key: &str, value: JsonValue)
    ensures
        final(fields)@ == old(fields)@.push((final(fields)@.last().0, value)),
        final(fields)@.last().0@ == key@,
        member_texts(final(fields)@) == member_texts(old(fields)@).push((key@, value.str_of())),
{
    let ghost before = fields@;
    fields.push((String::from_str(key), value));
    assert(member_texts(fields@) =~= member_texts(before).push((key@, value.str_of())));
}

/// Appends the member `(key, text)` whose value is a string.
pub fn push_text(fields: &mut Vec<(String, JsonValue)>, key: &str, text: &str)
    ensures
        member_texts(final(fields)@) == member_texts(old(fields)@).push((key@, Some(text@))),
{
    push_member(fields, key, JsonValue::text(text));
}

/// `{k1: v1}`
pub fn object1(k1: &str, v1: JsonValue) -> (o: JsonValue)
    ensures
        is_object(o, seq![k1@]),
        field_value(o, 0) == v1,
{
    let mut f: Vec<(String, JsonValue)> = Vec::new();
    push_member(&mut f, k1, v1);
    JsonValue::Object(f)
}

/// `{k1: v1, k2: v2}`
pub fn object2(k1: &str, v1: JsonValue, k2: &str, v2: JsonValue) -> (o: JsonValue)
    ensures
        is_object(o, seq![k1@, k2@]),
        field_value(o, 0) == v1,
        field_value(o, 1) == v2,
{
    let mut f: Vec<(String, JsonValue)> = Vec::new();
    push_member(&mut f, k1, v1);
    push_member(&mut f, k2, v2);
    JsonValue::Object(f)
}

/// `{k1: v1, k2: v2, k3: v3}`
pub fn object3(k1: &str, v1: JsonValue, k2: &str, v2: JsonValue, k3: &str, v3: JsonValue) -> (o: JsonValue)
    ensures
        is_object(o, seq![k1@, k2@, k3@]),
        field_value(o, 0) == v1,
        field_value(o, 1) == v2,
        field_value(o, 2) == v3,
{
    let mut f: Vec<(String, JsonValue)> = Vec::new();
    push_member(&mut f, k1, v1);
    push_member(&mut f, k2, v2);
    push_member(&mut f, k3, v3);
    JsonValue::Object(f)
}

/// `{k1: v1, k2: v2, k3: v3, k4: v4}`
pub fn object4(
    k1: &str,
    v1: JsonValue,
    k2: &str,
    v2: JsonValue,
    k3: &str,
    v3: JsonValue,
    k4: &str,
    v4: JsonValue,
) -> (o: JsonValue)
    ensures
        is_object(o, seq![k1@, k2@, k3@, k4@]),
        field_value(o, 0) == v1,
        field_value(o, 1) == v2,
        field_value(o, 2) == v3,
        field_value(o, 3) == v4,
{
    let mut f: Vec<(String, JsonValue)> = Vec::new();
    push_member(&mut f, k1, v1);
    push_member(&mut f, k2, v2);
    push_member(&mut f, k3, v3);
    push_member(&mut f, k4, v4);
    JsonValue::Object(f)
}

/// Where the first member named `key` stands.
fn member_index(fields: &Vec<(String, JsonValue)>, key: &str) -> (r: Option<usize>)
    ensures
        match r {
            Some(i) => i < fields@.len() && member(fields@, key@) == Some(fields@[i as int].1),
            None => member(fields@, key@) is None,
        },
{
    let k = String::from_str(key);
    let mut i: usize = 0;
    assert(fields@.skip(0) =~= fields@);
    while i < fields.len()
        invariant
            0 <= i <= fields@.len(),
            k@ == key@,
            member(fields@, key@) == member(fields@.skip(i as int), key@),
        decreases fields@.len() - i,
    {
        assert(fields@.skip(i as int).drop_first() =~= fields@.skip(i + 1));
        assert(fields@.skip(i as int)[0] == fields@[i as int]);
        if fields[i].0 == k {
            assert(member(fields@.skip(i as int), key@) == Some(fields@[i as int].1));
            return Some(i);
        }
        i += 1;
    }
    None
}

impl JsonValue {
    /// The member `key` of this object, taken out of it.
    pub fn into_member(self, key: &str) -> (r: Option<JsonValue>)
        ensures
            r == self.member_of(key@),
    {
        match self {
            JsonValue::Object(fields) => {
                let mut fields = fields;
                match member_index(&fields, key) {
                    Some(i) => {
                        let entry = fields.remove(i);
                        Some(entry.1)
                    },
                    None => None,
                }
            },
            _ => None,
        }
    }
}

} // verus!
