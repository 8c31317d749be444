//! Personalization models: the optional JSON body attached to an item is
//! parsed as a flat object, and every `topic_`-prefixed key whose value is
//! boolean `true` or the string `"true"` becomes a model entry with weight
//! one, the prefix stripped. A malformed body fails the whole item.

use vstd::prelude::*;

use crate::errors::ProxyError;
use crate::text::{chars_of, range_eq_str, str_eq, string_from_chars};

verus! {

/// What the engine keeps of one JSON value: a boolean, a string, or the
/// bare fact that some other value was there.
pub enum JsonPrim {
    Bool(bool),
    Str(String),
    Other,
}

/// The spec-level shape of a kept JSON value.
pub enum JsonPrimV {
    Bool(bool),
    Str(Seq<char>),
    Other,
}

impl View for JsonPrim {
    type V = JsonPrimV;

    open spec fn view(&self) -> JsonPrimV {
        match self {
            JsonPrim::Bool(b) => JsonPrimV::Bool(*b),
            JsonPrim::Str(s) => JsonPrimV::Str(s@),
            JsonPrim::Other => JsonPrimV::Other,
        }
    }
}

/// The spec view of a parsed entry list.
pub open spec fn json_entries_view(v: Seq<(String, JsonPrim)>) -> Seq<(Seq<char>, JsonPrimV)> {
    v.map_values(|p: (String, JsonPrim)| (p.0@, p.1@))
}

/// The spec view of a model list.
pub open spec fn models_view(v: Seq<(String, u32)>) -> Seq<(Seq<char>, u32)> {
    v.map_values(|p: (String, u32)| (p.0@, p.1))
}

/// The entries of the JSON object written in `s`, in the order the parser
/// yields them, or nothing when `s` is not a JSON object. What the engine
/// keeps of each value is a [`JsonPrimV`].
pub uninterp spec fn json_object_entries(s: Seq<char>) -> Option<Seq<(Seq<char>, JsonPrimV)>>;

#[verifier::external_type_specification]
#[verifier::external_body]
pub struct ExSerdeJsonError(serde_json::Error);

/// Relies on `serde_json::from_str` into `serde_json::Map<String, Value>`:
/// parses the text as a JSON object or fails; the entries come out sorted
/// by key, so they depend on the text alone, and an object's keys are
/// distinct. Boolean and string values keep their content; of any other
/// value only its presence is kept.
#[verifier::external_body]
fn parse_json_object(s: &str) -> (r: Result<Vec<(String, JsonPrim)>, serde_json::Error>)
    ensures
        match r {
            Ok(v) => json_object_entries(s@) == Some(json_entries_view(v@)) && (forall|
                i: int,
                j: int,
            | 0 <= i < j < v@.len() ==> v@[i].0@ != v@[j].0@),
            Err(_) => json_object_entries(s@) is None,
        },
{
    let map = serde_json::from_str::<serde_json::Map<String, serde_json::Value>>(s)?;
    Ok(map.into_iter().map(|(k, v)| (k, match v {
        serde_json::Value::Bool(b) => JsonPrim::Bool(b),
        serde_json::Value::String(t) => JsonPrim::Str(t),
        serde_json::Value::Null => JsonPrim::Other,
        serde_json::Value::Number(_) => JsonPrim::Other,
        serde_json::Value::Array(_) => JsonPrim::Other,
        serde_json::Value::Object(_) => JsonPrim::Other,
    })).collect())
}

/// A key that names a personalization topic.
pub open spec fn is_topic_key(k: Seq<char>) -> bool {
    k.len() >= "topic_"@.len() && k.take("topic_"@.len() as int) == "topic_"@
}

/// The topic named by a topic key: the prefix stripped.
pub open spec fn topic_of(k: Seq<char>) -> Seq<char> {
    k.skip("topic_"@.len() as int)
}

/// A value that switches a topic on: boolean `true` or the string
/// `"true"`.
pub open spec fn is_true_value(p: JsonPrimV) -> bool {
    match p {
        JsonPrimV::Bool(b) => b,
        JsonPrimV::Str(s) => s == "true"@,
        JsonPrimV::Other => false,
    }
}

/// The models derived from an entry list: one entry of weight one per
/// switched-on topic key, prefix stripped, entry order kept.
pub open spec fn models_of(entries: Seq<(Seq<char>, JsonPrimV)>) -> Seq<(Seq<char>, u32)>
    decreases entries.len(),
{
    if entries.len() == 0 {
        Seq::<(Seq<char>, u32)>::empty()
    } else {
        let rest = models_of(entries.drop_last());
        let e = entries.last();
        if is_topic_key(e.0) && is_true_value(e.1) {
            rest + seq![(topic_of(e.0), 1u32)]
        } else {
            rest
        }
    }
}

/// Derives the personalization models from an optional JSON body. An
/// absent body yields no models; a body that is not a JSON object is an
/// error.
pub fn get_personalization_models(body: Option<String>) -> (r: Result<
    Vec<(String, u32)>,
    ProxyError,
>)
    ensures
        body is None ==> (r matches Ok(v) && v@.len() == 0),
        body matches Some(b) ==> match r {
            Ok(v) => json_object_entries(b@) matches Some(es) && models_view(v@) == models_of(es),
            Err(_) => json_object_entries(b@) is None,
        },
{
    let b = match body {
        None => {
            return Ok(Vec::new());
        },
        Some(b) => b,
    };
    let entries = match parse_json_object(b.as_str()) {
        Ok(v) => v,
        Err(_) => {
            return Err(ProxyError::new("invalid personalization body"));
        },
    };
    let ghost es = json_entries_view(entries@);
    let mut result: Vec<(String, u32)> = Vec::new();
    let n = entries.len();
    assert(models_view(result@) =~= models_of(es.take(0)));
    for i in 0..n
        invariant
            n == entries@.len(),
            es == json_entries_view(entries@),
            models_view(result@) == models_of(es.take(i as int)),
    {
        let key = chars_of(entries[i].0.as_str());
        let prefix = "topic_";
        let pl = prefix.unicode_len();
        let keep: bool = if key.len() >= pl && range_eq_str(&key, 0, pl, prefix) {
            match &entries[i].1 {
                JsonPrim::Bool(v) => *v,
                JsonPrim::Str(s) => str_eq(s.as_str(), "true"),
                JsonPrim::Other => false,
            }
        } else {
            false
        };
        proof {
            assert(es[i as int] == (entries@[i as int].0@, entries@[i as int].1@));
            assert(key@.take(pl as int) =~= key@.subrange(0, pl as int));
            assert(keep == (is_topic_key(es[i as int].0) && is_true_value(es[i as int].1)));
        }
        if keep {
            let suffix = crate::text::copy_range(&key, pl, key.len());
            let topic = string_from_chars(&suffix);
            result.push((topic, 1));
            assert(topic@ == topic_of(es[i as int].0));
        }
        proof {
            assert(es.take(i + 1).drop_last() =~= es.take(i as int));
            assert(es.take(i + 1).last() == es[i as int]);
            if keep {
                assert(models_view(result@) =~= models_of(es.take(i as int)) + seq![
                    (topic_of(es[i as int].0), 1u32),
                ]);
            }
            assert(models_view(result@) == models_of(es.take(i + 1)));
        }
    }
    assert(es.take(n as int) =~= es);
    Ok(result)
}

} // verus!
