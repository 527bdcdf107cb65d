//! A JSON value held as plain data, with its mathematical view.
use vstd::prelude::*;
use vstd::string::StringExecFns;

verus! {

/// A JSON value. A number keeps the text it was written with; an object keeps
/// its members in order.
#[derive(PartialEq, Eq, Debug)]
pub enum Json {
    Null,
    Bool(bool),
    Number(String),
    String(String),
    Array(Vec<Json>),
    Object(Vec<(String, Json)>),
}

/// The mathematical view of a [`Json`] value.
pub enum JsonView {
    Null,
    Bool(bool),
    Number(Seq<char>),
    String(Seq<char>),
    Array(Seq<JsonView>),
    Object(Seq<(Seq<char>, JsonView)>),
}

impl View for Json {
    type V = JsonView;

    open spec fn view(&self) -> JsonView
        decreases self,
    {
        match self {
            Json::Null => JsonView::Null,
            Json::Bool(b) => JsonView::Bool(*b),
            Json::Number(n) => JsonView::Number(n@),
            Json::String(s) => JsonView::String(s@),
            Json::Array(items) => JsonView::Array(
                Seq::new(
                    items.len() as nat,
                    |i: int|
                        if 0 <= i < items.len() {
                            items[i].view()
                        } else {
                            JsonView::Null
                        },
                ),
            ),
            Json::Object(members) => JsonView::Object(
                Seq::new(
                    members.len() as nat,
                    |i: int|
                        (
                            members[i].0@,
                            if 0 <= i < members.len() {
                                members[i].1.view()
                            } else {
                                JsonView::Null
                            },
                        ),
                ),
            ),
        }
    }
}

impl Json {
    fn copy_of(&self) -> (r: Json)
        ensures
            r@ == self@,
        decreases self,
    {
        match self {
            Json::Null => Json::Null,
            Json::Bool(b) => Json::Bool(*b),
            Json::Number(n) => Json::Number(n.clone()),
            Json::String(s) => Json::String(s.clone()),
            Json::Array(items) => {
                let mut out: Vec<Json> = Vec::new();
                let mut i: usize = 0;
                while i < items.len()
                    invariant
                        i <= items.len(),
                        out.len() == i,
                        *self == Json::Array(*items),
                        forall|k: int| 0 <= k < i ==> (#[trigger] out[k])@ == items[k]@,
                    decreases items.len() - i,
                {
                    proof {
                        assert(decreases_to!(*self => self->Array_0));
                        assert(decreases_to!(self->Array_0 => self->Array_0@));
                        assert(decreases_to!(self->Array_0@ => self->Array_0@[i as int]));
                    }
                    out.push(items[i].copy_of());
                    i = i + 1;
                }
                let r = Json::Array(out);
                assert(r@ == self@) by {
                    if let JsonView::Array(a) = r@ {
                        if let JsonView::Array(b) = self@ {
                            assert(a =~= b);
                        }
                    }
                }
                r
            },
            Json::Object(members) => {
                let mut out: Vec<(String, Json)> = Vec::new();
                let mut i: usize = 0;
                while i < members.len()
                    invariant
                        i <= members.len(),
                        out.len() == i,
                        *self == Json::Object(*members),
                        forall|k: int|
                            0 <= k < i ==> (#[trigger] out[k]).0@ == members[k].0@ && out[k].1@
                                == members[k].1@,
                    decreases members.len() - i,
                {
                    proof {
                        assert(decreases_to!(*self => self->Object_0));
                        assert(decreases_to!(self->Object_0 => self->Object_0@));
                        assert(decreases_to!(self->Object_0@ => self->Object_0@[i as int]));
                        assert(decreases_to!(self->Object_0@[i as int] => self->Object_0@[i as int].1));
                    }
                    out.push((members[i].0.clone(), members[i].1.copy_of()));
                    i = i + 1;
                }
                let r = Json::Object(out);
                assert(r@ == self@) by {
                    if let JsonView::Object(a) = r@ {
                        if let JsonView::Object(b) = self@ {
                            assert forall|k: int| 0 <= k < a.len() implies a[k] == b[k] by {
                                assert(out[k].0@ == members[k].0@);
                                assert(out[k].1@ == members[k].1@);
                            }
                            assert(a =~= b);
                        }
                    }
                }
                r
            },
        }
    }
}

impl Clone for Json {
    fn clone(&self) -> (r: Json)
        ensures
            r@ == self@,
    {
        self.copy_of()
    }
}

#[verifier::external_type_specification]
#[verifier::external_body]
pub struct ExValue(serde_json::Value);

/// What parsing a JSON text gives: the value, or the parser's message.
pub uninterp spec fn json_parse_result(text: Seq<char>) -> Result<JsonView, Seq<char>>;

/// Relies on the variants of `serde_json::Value`: each becomes the variant of
/// the same name, a number as the text that its `Display` writes.
#[verifier::external_body]
fn json_from_value(v: serde_json::Value) -> Json {
    match v {
        serde_json::Value::Null => Json::Null,
        serde_json::Value::Bool(b) => Json::Bool(b),
        serde_json::Value::Number(n) => Json::Number(n.to_string()),
        serde_json::Value::String(s) => Json::String(s),
        serde_json::Value::Array(a) => Json::Array(a.into_iter().map(json_from_value).collect()),
        serde_json::Value::Object(m) => Json::Object(
            m.into_iter().map(|(k, v)| (k, json_from_value(v))).collect(),
        ),
    }
}

/// Relies on `serde_json::from_str`: the text is parsed as one JSON value, or
/// the parser's error is rendered by its `Display`. The outcome depends on the
/// text alone.
#[verifier::external_body]
pub(crate) fn parse_json(text: &str) -> (r: Result<Json, String>)
    ensures
        match r {
            Ok(j) => json_parse_result(text@) == Ok::<JsonView, Seq<char>>(j@),
            Err(m) => json_parse_result(text@) == Err::<JsonView, Seq<char>>(m@),
        },
{
    serde_json::from_str::<serde_json::Value>(text).map(json_from_value).map_err(|e| e.to_string())
}

impl Json {
    /// Parses JSON text into a value, or gives the parser's message.
    pub fn parse(text: &str) -> (r: Result<Json, String>)
        ensures
            match r {
                Ok(j) => json_parse_result(text@) == Ok::<JsonView, Seq<char>>(j@),
                Err(m) => json_parse_result(text@) == Err::<JsonView, Seq<char>>(m@),
            },
    {
        parse_json(text)
    }
}

/// The value of the first member of `ms` named `key`.
pub open spec fn member(ms: Seq<(Seq<char>, JsonView)>, key: Seq<char>) -> Option<JsonView>
    decreases ms.len(),
{
    if ms.len() == 0 {
        None
    } else if ms[0].0 == key {
        Some(ms[0].1)
    } else {
        member(ms.drop_first(), key)
    }
}

/// The value of the member `key` of `j`, where `j` is an object that has one.
pub open spec fn lookup(j: JsonView, key: Seq<char>) -> Option<JsonView> {
    match j {
        JsonView::Object(ms) => member(ms, key),
        _ => None,
    }
}

/// Finds the first member of `j` named `key`; none where `j` is not an object.
pub fn find_member<'a>(j: &'a Json, key: &str) -> (r: Option<&'a Json>)
    ensures
        match r {
            Some(v) => lookup(j@, key@) == Some(v@),
            None => lookup(j@, key@) is None,
        },
{
    match j {
        Json::Object(ms) => {
            let k = String::from_str(key);
            let ghost all = j@->Object_0;
            assert(all.subrange(0, all.len() as int) =~= all);
            let mut i: usize = 0;
            while i < ms.len()
                invariant
                    i <= ms.len(),
                    *j == Json::Object(*ms),
                    all == j@->Object_0,
                    k@ == key@,
                    member(all, key@) == member(all.subrange(i as int, all.len() as int), key@),
                decreases ms.len() - i,
            {
                let ghost rest = all.subrange(i as int, all.len() as int);
                assert(rest[0] == all[i as int]);
                if ms[i].0 == k {
                    return Some(&ms[i].1);
                }
                assert(rest.drop_first() =~= all.subrange(i + 1, all.len() as int));
                i = i + 1;
            }
            None
        },
        _ => None,
    }
}

/// The views of the members `ms`, in order.
pub open spec fn members_view(ms: Seq<(String, Json)>) -> Seq<(Seq<char>, JsonView)> {
    Seq::new(ms.len(), |i: int| (ms[i].0@, ms[i].1@))
}

/// The views of the items `items`, in order.
pub open spec fn items_view(items: Seq<Json>) -> Seq<JsonView> {
    Seq::new(items.len(), |i: int| items[i]@)
}

pub proof fn lemma_object_view(ms: Vec<(String, Json)>)
    ensures
        Json::Object(ms)@ == JsonView::Object(members_view(ms@)),
{
    assert(Json::Object(ms)@->Object_0 =~= members_view(ms@));
}

pub proof fn lemma_array_view(items: Vec<Json>)
    ensures
        Json::Array(items)@ == JsonView::Array(items_view(items@)),
{
    assert(Json::Array(items)@->Array_0 =~= items_view(items@));
}

/// Appends the member `name: value`.
pub fn push_member(ms: &mut Vec<(String, Json)>, name: &str, value: Json)
    ensures
        members_view(final(ms)@) == members_view(old(ms)@).push((name@, value@)),
{
    ms.push((String::from_str(name), value));
    assert(members_view(ms@) =~= members_view(old(ms)@).push((name@, value@)));
}

/// Where `ms` has a member named `key`, the first such member of `ms + rest`
/// is that one; otherwise it is the first of `rest`.
pub broadcast proof fn lemma_member_concat(
    ms: Seq<(Seq<char>, JsonView)>,
    rest: Seq<(Seq<char>, JsonView)>,
    key: Seq<char>,
)
    ensures
        #[trigger] member(ms + rest, key) == if member(ms, key) is Some {
            member(ms, key)
        } else {
            member(rest, key)
        },
    decreases ms.len(),
{
    if ms.len() == 0 {
        assert(ms + rest =~= rest);
    } else {
        assert((ms + rest).drop_first() =~= ms.drop_first() + rest);
        assert((ms + rest)[0] == ms[0]);
        lemma_member_concat(ms.drop_first(), rest, key);
    }
}

/// The only member of a one-member object is found by its name alone.
pub broadcast proof fn lemma_member_single(name: Seq<char>, v: JsonView, key: Seq<char>)
    ensures
        #[trigger] member(seq![(name, v)], key) == if name == key {
            Some(v)
        } else {
            None
        },
{
    let s = seq![(name, v)];
    assert(s[0] == (name, v));
    if name != key {
        assert(s.drop_first() =~= Seq::<(Seq<char>, JsonView)>::empty());
        assert(member(Seq::<(Seq<char>, JsonView)>::empty(), key) is None);
    }
}

/// No member is found in an object without members.
pub broadcast proof fn lemma_member_empty(key: Seq<char>)
    ensures
        #[trigger] member(Seq::<(Seq<char>, JsonView)>::empty(), key) is None,
{
}

} // verus!
