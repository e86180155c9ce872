use vstd::prelude::*;

verus! {

/// A JSON document as the assistant reads it back from a service reply.
///
/// Numbers are kept as their decimal text: the library only ever needs to
/// know that a node is a number, never its value.
#[derive(Debug)]
pub enum Json {
    Null,
    Bool(bool),
    Number(String),
    Str(String),
    Array(Vec<Json>),
    Object(Vec<(String, Json)>),
}

/// One step of a path into a JSON document: a member name or an array position.
pub enum JsonStep {
    Key(Seq<char>),
    Index(nat),
}

/// The value stored under `key` in the members `entries` (the first one, should
/// a name occur twice).
pub open spec fn object_get(entries: Seq<(String, Json)>, key: Seq<char>) -> Option<Json>
    decreases entries.len(),
{
    if entries.len() == 0 {
        None
    } else if entries[0].0@ == key {
        Some(entries[0].1)
    } else {
        object_get(entries.drop_first(), key)
    }
}

/// A member is found wherever it stands in an object: the first member named
/// `key` is the one found, and an object with no member of that name has none.
pub proof fn law_member_found_at_any_position(entries: Vec<(String, Json)>, key: Seq<char>, k: int)
    ensures
        0 <= k < entries@.len() && entries@[k].0@ == key && (forall|j: int|
            0 <= j < k ==> entries@[j].0@ != key) ==> json_child(
            Json::Object(entries),
            JsonStep::Key(key),
        ) == Some(entries@[k].1),
        (forall|j: int| 0 <= j < entries@.len() ==> entries@[j].0@ != key) ==> json_child(
            Json::Object(entries),
            JsonStep::Key(key),
        ) is None,
{
    lemma_object_get_position(entries@, key, k);
    lemma_object_get_absent(entries@, key);
}

proof fn lemma_object_get_position(es: Seq<(String, Json)>, key: Seq<char>, k: int)
    ensures
        0 <= k < es.len() && es[k].0@ == key && (forall|j: int| 0 <= j < k ==> es[j].0@ != key)
            ==> object_get(es, key) == Some(es[k].1),
    decreases es.len(),
{
    if 0 < k < es.len() && es[k].0@ == key && (forall|j: int| 0 <= j < k ==> es[j].0@ != key) {
        assert(es[0].0@ != key);
        let rest = es.drop_first();
        assert forall|j: int| 0 <= j < k - 1 implies rest[j].0@ != key by {
            assert(rest[j] == es[j + 1]);
        }
        assert(rest[k - 1] == es[k]);
        lemma_object_get_position(rest, key, k - 1);
    }
}

proof fn lemma_object_get_absent(es: Seq<(String, Json)>, key: Seq<char>)
    ensures
        (forall|j: int| 0 <= j < es.len() ==> es[j].0@ != key) ==> object_get(es, key) is None,
    decreases es.len(),
{
    if es.len() > 0 && (forall|j: int| 0 <= j < es.len() ==> es[j].0@ != key) {
        let rest = es.drop_first();
        assert(es[0].0@ != key);
        assert forall|j: int| 0 <= j < rest.len() implies rest[j].0@ != key by {
            assert(rest[j] == es[j + 1]);
        }
        lemma_object_get_absent(rest, key);
    }
}

/// The child of `v` reached by one step, if there is one.
pub open spec fn json_child(v: Json, step: JsonStep) -> Option<Json> {
    match step {
        JsonStep::Key(k) => match v {
            Json::Object(entries) => object_get(entries@, k),
            _ => None,
        },
        JsonStep::Index(i) => match v {
            Json::Array(items) => if i < items@.len() {
                Some(items@[i as int])
            } else {
                None
            },
            _ => None,
        },
    }
}

/// The node of `v` found by following `path`, if every step exists.
pub open spec fn json_at(v: Json, path: Seq<JsonStep>) -> Option<Json>
    decreases path.len(),
{
    if path.len() == 0 {
        Some(v)
    } else {
        match json_child(v, path[0]) {
            Some(c) => json_at(c, path.drop_first()),
            None => None,
        }
    }
}

/// A step of a path as the executable code holds it.
#[derive(Debug)]
pub enum PathStep {
    Key(String),
    Index(usize),
}

impl View for PathStep {
    type V = JsonStep;

    open spec fn view(&self) -> JsonStep {
        match self {
            PathStep::Key(k) => JsonStep::Key(k@),
            PathStep::Index(i) => JsonStep::Index(*i as nat),
        }
    }
}

/// The steps of an executable path, as spec steps.
pub open spec fn steps_view(path: Seq<PathStep>) -> Seq<JsonStep> {
    path.map_values(|s: PathStep| s@)
}

/// Follows `path` from `v`; `None` as soon as a step has no child to go to.
pub fn lookup<'a>(v: &'a Json, path: &[PathStep]) -> (r: Option<&'a Json>)
    ensures
        match r {
            Some(c) => json_at(*v, steps_view(path@)) == Some(*c),
            None => json_at(*v, steps_view(path@)) is None,
        },
{
    let ghost sv = steps_view(path@);
    let n = path.len();
    let mut cur: &Json = v;
    let mut i: usize = 0;
    assert(sv.skip(0) =~= sv);
    while i < n
        invariant
            n == path@.len(),
            sv == steps_view(path@),
            sv.len() == n,
            i <= n,
            json_at(*v, sv) == json_at(*cur, sv.skip(i as int)),
        decreases n - i,
    {
        assert(sv.skip(i as int)[0] == path@[i as int]@);
        assert(sv.skip(i as int).drop_first() =~= sv.skip(i + 1));
        let next = match &path[i] {
            PathStep::Key(k) => child_by_key(cur, k),
            PathStep::Index(j) => child_at(cur, *j),
        };
        match next {
            Some(c) => {
                cur = c;
            },
            None => {
                return None;
            },
        }
        i = i + 1;
    }
    assert(sv.skip(n as int).len() == 0);
    Some(cur)
}

/// Looks up the member `key` of `v`, when `v` is an object that has one.
pub fn child_by_key<'a>(v: &'a Json, key: &String) -> (r: Option<&'a Json>)
    ensures
        match r {
            Some(c) => json_child(*v, JsonStep::Key(key@)) == Some(*c),
            None => json_child(*v, JsonStep::Key(key@)) is None,
        },
{
    match v {
        Json::Object(entries) => {
            let n = entries.len();
            let mut i: usize = 0;
            assert(entries@.skip(0) =~= entries@);
            while i < n
                invariant
                    n == entries@.len(),
                    i <= n,
                    json_child(*v, JsonStep::Key(key@)) == object_get(entries@.skip(i as int), key@),
                decreases n - i,
            {
                assert(entries@.skip(i as int).drop_first() =~= entries@.skip(i + 1));
                assert(entries@.skip(i as int)[0] == entries@[i as int]);
                if entries[i].0 == *key {
                    return Some(&entries[i].1);
                }
                i = i + 1;
            }
            None
        },
        _ => None,
    }
}

/// The element at position `i` of `v`, when `v` is an array that long.
pub fn child_at(v: &Json, i: usize) -> (r: Option<&Json>)
    ensures
        match r {
            Some(c) => json_child(*v, JsonStep::Index(i as nat)) == Some(*c),
            None => json_child(*v, JsonStep::Index(i as nat)) is None,
        },
{
    match v {
        Json::Array(items) => if i < items.len() {
            Some(&items[i])
        } else {
            None
        },
        _ => None,
    }
}

/// The text of `v`, when `v` is a string node.
pub fn text_of(v: &Json) -> (r: Option<&String>)
    ensures
        match r {
            Some(s) => *v == Json::Str(*s),
            None => !(v is Str),
        },
{
    match v {
        Json::Str(s) => Some(s),
        _ => None,
    }
}

} // verus!
