//! A plain-data JSON document tree and its mathematical model.
//!
//! Objects keep their keys unique; their model is a map from key text to the
//! model of the value, so the order in which keys were inserted plays no part
//! (the serialiser orders keys itself).
use vstd::prelude::*;

verus! {

/// The mathematical model of a JSON value.
pub enum Json {
    Null,
    Bool(bool),
    /// A number, held by its decimal text.
    Number(Seq<char>),
    Text(Seq<char>),
    Array(Seq<Json>),
    Object(Map<Seq<char>, Json>),
}

/// A JSON value held in plain data.
#[derive(Debug)]
pub enum JsonValue {
    Null,
    Bool(bool),
    /// A number, held by its decimal text.
    Number(String),
    Text(String),
    Array(Vec<JsonValue>),
    Object(JsonObject),
}

/// A JSON object: key/value entries whose keys are pairwise distinct.
#[derive(Debug)]
pub struct JsonObject {
    entries: Vec<(String, JsonValue)>,
}

/// The keys of a sequence of entries are pairwise distinct.
pub open spec fn keys_distinct(s: Seq<(String, JsonValue)>) -> bool {
    forall|i: int, j: int| 0 <= i < s.len() && 0 <= j < s.len() && i != j ==> s[i].0@ != s[j].0@
}

/// Some entry of `s` has key `k`.
pub open spec fn has_key(s: Seq<(String, JsonValue)>, k: Seq<char>) -> bool {
    exists|i: int| 0 <= i < s.len() && #[trigger] s[i].0@ == k
}

impl JsonValue {
    /// The model of this value.
    pub open spec fn view(self) -> Json
        decreases self,
    {
        match self {
            JsonValue::Null => Json::Null,
            JsonValue::Bool(b) => Json::Bool(b),
            JsonValue::Number(n) => Json::Number(n@),
            JsonValue::Text(t) => Json::Text(t@),
            JsonValue::Array(v) => Json::Array(
                Seq::new(v@.len(), |i: int| if 0 <= i < v@.len() { v@[i].view() } else { Json::Null }),
            ),
            JsonValue::Object(o) => Json::Object(o.view()),
        }
    }
}

impl JsonObject {
    /// The model of this object: each key's text mapped to the model of its value.
    pub closed spec fn view(self) -> Map<Seq<char>, Json>
        decreases self,
    {
        Map::new(
            |k: Seq<char>| has_key(self.entries@, k),
            |k: Seq<char>|
                {
                    let i = choose|i: int| 0 <= i < self.entries@.len() && #[trigger] self.entries@[i].0@ == k;
                    if 0 <= i < self.entries@.len() { self.entries@[i].1.view() } else { Json::Null }
                },
        )
    }

    #[verifier::type_invariant]
    closed spec fn inv(self) -> bool {
        keys_distinct(self.entries@)
    }

    /// The empty object.
    pub fn new() -> (o: JsonObject)
        ensures
            o@ == Map::<Seq<char>, Json>::empty(),
    {
        let o = JsonObject { entries: Vec::new() };
        assert(o@ =~= Map::<Seq<char>, Json>::empty());
        o
    }

    /// Position of the entry whose key is `key`, if there is one.
    fn position(&self, key: &str) -> (r: Option<usize>)
        ensures
            match r {
                Some(i) => i < self.entries@.len() && self.entries@[i as int].0@ == key@,
                None => !has_key(self.entries@, key@),
            },
    {
        let mut i: usize = 0;
        while i < self.entries.len()
            invariant
                i <= self.entries@.len(),
                forall|j: int| 0 <= j < i ==> self.entries@[j].0@ != key@,
            decreases self.entries@.len() - i,
        {
            if string_equals_str(&self.entries[i].0, key) {
                return Some(i);
            }
            i = i + 1;
        }
        None
    }

    /// Whether the object has an entry under `key`.
    pub fn contains_key(&self, key: &str) -> (r: bool)
        ensures
            r == self@.contains_key(key@),
    {
        self.position(key).is_some()
    }

    /// The value stored under `key`, if any.
    pub fn get(&self, key: &str) -> (r: Option<&JsonValue>)
        ensures
            match r {
                Some(v) => self@.contains_key(key@) && self@[key@] == v@,
                None => !self@.contains_key(key@),
            },
    {
        proof { use_type_invariant(self); }
        match self.position(key) {
            Some(i) => {
                let ghost k = key@;
                assert(self.entries@[i as int].0@ == k);
                Some(&self.entries[i].1)
            },
            None => None,
        }
    }

    /// Puts `value` under `key`, replacing what was there.
    pub fn insert(&mut self, key: String, value: JsonValue)
        ensures
            final(self)@ == old(self)@.insert(key@, value@),
    {
        proof { use_type_invariant(&*self); }
        let pos = self.position(key.as_str());
        let mut entries: Vec<(String, JsonValue)> = Vec::new();
        std::mem::swap(&mut entries, &mut self.entries);
        let ghost old_entries = entries@;
        let ghost k = key@;
        match pos {
            Some(i) => {
                entries.set(i, (key, value));
            },
            None => {
                entries.push((key, value));
            },
        }
        self.entries = entries;
        proof {
            let new_map = self@;
            let old_map = old(self)@;
            assert forall|q: Seq<char>| #[trigger] new_map.contains_key(q) == old_map.insert(k, value@).contains_key(q) by {
                if q == k {
                    match pos {
                        Some(i) => { assert(self.entries@[i as int].0@ == q); },
                        None => { assert(self.entries@[old_entries.len() as int].0@ == q); },
                    }
                } else if old_map.contains_key(q) {
                    let j = choose|j: int| 0 <= j < old_entries.len() && #[trigger] old_entries[j].0@ == q;
                    assert(self.entries@[j].0@ == q);
                }
            }
            assert forall|q: Seq<char>| #[trigger] new_map.contains_key(q) implies new_map[q] == old_map.insert(k, value@)[q] by {
                if q == k {
                    match pos {
                        Some(i) => { assert(self.entries@[i as int].0@ == q); },
                        None => { assert(self.entries@[old_entries.len() as int].0@ == q); },
                    }
                } else {
                    let j = choose|j: int| 0 <= j < old_entries.len() && #[trigger] old_entries[j].0@ == q;
                    assert(self.entries@[j].0@ == q);
                }
            }
            assert(new_map =~= old_map.insert(k, value@));
        }
    }

    /// Removes the entry under `key`; says whether there was one.
    pub fn remove(&mut self, key: &str) -> (removed: bool)
        ensures
            removed == old(self)@.contains_key(key@),
            final(self)@ == old(self)@.remove(key@),
    {
        self.take(key).is_some()
    }
}

impl JsonObject {
    /// The keys of this object, each once.
    pub fn keys(&self) -> (r: Vec<String>)
        ensures
            r@.len() == self@.dom().len(),
            forall|i: int, j: int| 0 <= i < r@.len() && 0 <= j < r@.len() && i != j ==> r@[i]@ != r@[j]@,
            forall|k: Seq<char>| #[trigger] self@.contains_key(k) <==> exists|i: int| 0 <= i < r@.len() && #[trigger] r@[i]@ == k,
    {
        proof { use_type_invariant(self); }
        let mut r: Vec<String> = Vec::new();
        let mut i: usize = 0;
        while i < self.entries.len()
            invariant
                keys_distinct(self.entries@),
                i <= self.entries@.len(),
                r@.len() == i,
                forall|j: int| 0 <= j < i ==> #[trigger] r@[j]@ == self.entries@[j].0@,
            decreases self.entries@.len() - i,
        {
            r.push(self.entries[i].0.clone());
            i = i + 1;
        }
        proof {
            let ks = r@.map_values(|s: String| s@);
            assert forall|k: Seq<char>| #[trigger] self@.contains_key(k) <==> ks.contains(k) by {
                if self@.contains_key(k) {
                    let j = choose|j: int| 0 <= j < self.entries@.len() && #[trigger] self.entries@[j].0@ == k;
                    assert(ks[j] == k);
                }
                if ks.contains(k) {
                    let j = choose|j: int| 0 <= j < ks.len() && ks[j] == k;
                    assert(self.entries@[j].0@ == k);
                }
            }
            assert(self@.dom() =~= ks.to_set());
            assert(ks.no_duplicates()) by {
                assert forall|a: int, b: int| 0 <= a < ks.len() && 0 <= b < ks.len() && a != b implies ks[a] != ks[b] by {
                    assert(ks[a] == self.entries@[a].0@);
                    assert(ks[b] == self.entries@[b].0@);
                }
            }
            ks.unique_seq_to_set();
            assert forall|k: Seq<char>| #[trigger] self@.contains_key(k) implies exists|i: int| 0 <= i < r@.len() && #[trigger] r@[i]@ == k by {
                let j = choose|j: int| 0 <= j < ks.len() && ks[j] == k;
                assert(r@[j]@ == k);
            }
            assert forall|k: Seq<char>| (exists|i: int| 0 <= i < r@.len() && #[trigger] r@[i]@ == k) implies #[trigger] self@.contains_key(k) by {
                let j = choose|j: int| 0 <= j < r@.len() && #[trigger] r@[j]@ == k;
                assert(ks[j] == k);
            }
        }
        r
    }
}

impl JsonObject {
    /// Removes the entry under `key` and hands back its value, if there was one.
    pub fn take(&mut self, key: &str) -> (r: Option<JsonValue>)
        ensures
            final(self)@ == old(self)@.remove(key@),
            match r {
                Some(v) => old(self)@.contains_key(key@) && old(self)@[key@] == v@,
                None => !old(self)@.contains_key(key@),
            },
    {
        proof { use_type_invariant(&*self); }
        let pos = self.position(key);
        match pos {
            Some(i) => {
                let mut entries: Vec<(String, JsonValue)> = Vec::new();
                std::mem::swap(&mut entries, &mut self.entries);
                let ghost old_entries = entries@;
                let (_, v) = entries.remove(i);
                self.entries = entries;
                proof {
                    let k = key@;
                    let new_map = self@;
                    let old_map = old(self)@;
                    assert(old_entries[i as int].0@ == k);
                    assert(old_map[k] == v@);
                    assert forall|q: Seq<char>| #[trigger] new_map.contains_key(q) == old_map.remove(k).contains_key(q) by {
                        if new_map.contains_key(q) {
                            let j = choose|j: int| 0 <= j < self.entries@.len() && #[trigger] self.entries@[j].0@ == q;
                            if j < i { assert(old_entries[j].0@ == q); } else { assert(old_entries[j + 1].0@ == q); }
                        }
                        if q != k && old_map.contains_key(q) {
                            let j = choose|j: int| 0 <= j < old_entries.len() && #[trigger] old_entries[j].0@ == q;
                            if j < i { assert(self.entries@[j].0@ == q); } else { assert(self.entries@[j - 1].0@ == q); }
                        }
                    }
                    assert forall|q: Seq<char>| #[trigger] new_map.contains_key(q) implies new_map[q] == old_map.remove(k)[q] by {
                        let j = choose|j: int| 0 <= j < self.entries@.len() && #[trigger] self.entries@[j].0@ == q;
                        if j < i { assert(old_entries[j].0@ == q); } else { assert(old_entries[j + 1].0@ == q); }
                    }
                    assert(new_map =~= old_map.remove(k));
                }
                Some(v)
            },
            None => {
                proof {
                    assert(old(self)@.remove(key@) =~= old(self)@);
                }
                None
            },
        }
    }
}

impl JsonValue {
    /// The object inside this value, if it is one.
    pub fn as_object(&self) -> (r: Option<&JsonObject>)
        ensures
            match r {
                Some(o) => self@ == Json::Object(o@),
                None => !(self@ is Object),
            },
    {
        match self {
            JsonValue::Object(o) => Some(o),
            _ => None,
        }
    }
}

/// Whether the text of `s` equals the text of `t`.
pub fn string_equals_str(s: &String, t: &str) -> (r: bool)
    ensures
        r == (s@ == t@),
{
    let a = crate::text::chars_of(s.as_str());
    let b = crate::text::chars_of(t);
    if a.len() != b.len() {
        return false;
    }
    let mut i: usize = 0;
    while i < a.len()
        invariant
            a@ == s@,
            b@ == t@,
            a@.len() == b@.len(),
            i <= a@.len(),
            forall|j: int| 0 <= j < i ==> a@[j] == b@[j],
        decreases a@.len() - i,
    {
        if a[i] != b[i] {
            return false;
        }
        i = i + 1;
    }
    assert(a@ =~= b@);
    true
}

#[verifier::external_type_specification]
#[verifier::external_body]
pub struct ExSerdeValue(serde_json::Value);

/// What `serde_json::from_str::<serde_json::Value>` gives for the text `raw`:
/// the parsed document, or the text of the error it reports.
pub uninterp spec fn parsed_json(raw: Seq<char>) -> Result<Json, Seq<char>>;

/// The text that `serde_json::to_string_pretty` prints for the document `v`.
pub uninterp spec fn pretty_json(v: Json) -> Seq<char>;

/// serde_json's value in the library's form, one for one: a number is held
/// by the text serde_json prints for it, and an object's entries come from
/// serde_json's map, whose keys are distinct.
#[verifier::external_body]
fn from_serde(value: serde_json::Value) -> JsonValue {
    match value {
        serde_json::Value::Null => JsonValue::Null,
        serde_json::Value::Bool(b) => JsonValue::Bool(b),
        serde_json::Value::Number(n) => JsonValue::Number(n.to_string()),
        serde_json::Value::String(s) => JsonValue::Text(s),
        serde_json::Value::Array(items) => JsonValue::Array(items.into_iter().map(from_serde).collect()),
        serde_json::Value::Object(map) => JsonValue::Object(
            JsonObject { entries: map.into_iter().map(|(k, v)| (k, from_serde(v))).collect() },
        ),
    }
}

/// The number that serde_json printed as `t`, read back exactly: as a `u64`
/// or an `i64` where the text is one, else with std's correctly rounded
/// decimal reader (serde_json's own reader may round twice, so a float could
/// come back one unit in the last place off); text that is no finite number
/// becomes null.
#[verifier::external_body]
fn number_to_serde(t: &str) -> serde_json::Value {
    if let Ok(n) = t.parse::<u64>() {
        return serde_json::Value::Number(n.into());
    }
    if let Ok(n) = t.parse::<i64>() {
        return serde_json::Value::Number(n.into());
    }
    t.parse().ok().and_then(serde_json::Number::from_f64).map_or(serde_json::Value::Null, serde_json::Value::Number)
}

/// The library's value in serde_json's form, one for one; a number is read
/// back by [`number_to_serde`].
#[verifier::external_body]
fn to_serde(value: &JsonValue) -> serde_json::Value {
    match value {
        JsonValue::Null => serde_json::Value::Null,
        JsonValue::Bool(b) => serde_json::Value::Bool(*b),
        JsonValue::Number(t) => number_to_serde(t),
        JsonValue::Text(s) => serde_json::Value::String(s.clone()),
        JsonValue::Array(items) => serde_json::Value::Array(items.iter().map(to_serde).collect()),
        JsonValue::Object(o) => serde_json::Value::Object(o.entries.iter().map(|(k, v)| (k.clone(), to_serde(v))).collect()),
    }
}

/// Parses `raw` with `serde_json::from_str` into a `serde_json::Value` and
/// converts it. The contract names the outcome, which depends on `raw` alone
/// (serde_json's maps order their keys, so nothing else enters); what it is
/// for a given text is not stated.
#[verifier::external_body]
pub(crate) fn parse_json(raw: &str) -> (r: Result<JsonValue, String>)
    ensures
        match r {
            Ok(v) => parsed_json(raw@) == Ok::<Json, Seq<char>>(v@),
            Err(e) => parsed_json(raw@) == Err::<Json, Seq<char>>(e@),
        },
{
    match serde_json::from_str::<serde_json::Value>(raw) {
        Ok(v) => Ok(from_serde(v)),
        Err(e) => Err(e.to_string()),
    }
}

/// Prints `v` with `serde_json::to_string_pretty`. The contract names the
/// text, which depends on the model of `v` alone: serde_json's maps order
/// their keys, and the printer does not fail on a `serde_json::Value`.
/// Whether the text parses back to `v` is not stated.
#[verifier::external_body]
pub(crate) fn pretty_text(v: &JsonValue) -> (r: String)
    ensures
        r@ == pretty_json(v@),
{
    serde_json::to_string_pretty(&to_serde(v)).unwrap_or_default()
}

} // verus!
