use vstd::prelude::*;
use vstd::string::*;

verus! {

/// The JSON value that a document or a `serde_json::Value` stands for. Numbers
/// and booleans carry nothing that the configuration reads.
pub enum Json {
    Null,
    Bool(bool),
    Number,
    Str(Seq<char>),
    Array(Seq<Json>),
    Object(Map<Seq<char>, Json>),
}

#[verifier::external_type_specification]
#[verifier::external_body]
pub struct ExJsonValue(serde_json::Value);

#[verifier::external_type_specification]
#[verifier::external_body]
pub struct ExJsonError(serde_json::Error);

/// The document that serde_json reads from `b`; `None` where it rejects `b`.
pub uninterp spec fn json_parse(b: Seq<u8>) -> Option<Json>;

/// What a `serde_json::Value` holds.
pub uninterp spec fn json_of(v: serde_json::Value) -> Json;

/// Relies on `serde_json::from_slice::<Value>`: it fails exactly where the bytes
/// are no JSON document, and otherwise holds the document read.
#[verifier::external_body]
fn parse_json(b: &[u8]) -> (r: Result<serde_json::Value, serde_json::Error>)
    ensures
        r is Ok <==> json_parse(b@) is Some,
        r matches Ok(v) ==> json_parse(b@) == Some(json_of(v)),
{
    serde_json::from_slice::<serde_json::Value>(b)
}

/// Relies on `serde_json::Value::get` with a string key: the member of that
/// name of an object; `None` for a missing member or a value of another kind.
#[verifier::external_body]
fn json_member<'a>(v: &'a serde_json::Value, key: &str) -> (r: Option<&'a serde_json::Value>)
    ensures
        r is Some <==> (json_of(*v) matches Json::Object(m) && m.contains_key(key@)),
        r matches Some(x) ==> json_of(*v)->Object_0[key@] == json_of(*x),
{
    v.get(key)
}

/// Relies on `serde_json::Value::as_array`: the elements of an array.
pub assume_specification[ serde_json::Value::as_array ](v: &serde_json::Value) -> (r: Option<
    &Vec<serde_json::Value>,
>)
    ensures
        r is Some <==> json_of(*v) is Array,
        r matches Some(a) ==> json_of(*v) == Json::Array(a@.map_values(|x: serde_json::Value| json_of(x))),
;

/// Relies on `serde_json::Value::as_str`: the text of a string.
pub assume_specification[ serde_json::Value::as_str ](v: &serde_json::Value) -> (r: Option<&str>)
    ensures
        r is Some <==> json_of(*v) is Str,
        r matches Some(s) ==> json_of(*v) == Json::Str(s@),
;

/// Relies on `serde_json::Value::is_object`.
pub assume_specification[ serde_json::Value::is_object ](v: &serde_json::Value) -> (r: bool)
    ensures
        r == (json_of(*v) is Object),
;

/// Relies on `serde_json::Value::is_null`.
pub assume_specification[ serde_json::Value::is_null ](v: &serde_json::Value) -> (r: bool)
    ensures
        r == (json_of(*v) is Null),
;

/// Relies on the `serde_json::Value::Null` variant.
#[verifier::external_body]
fn json_null() -> (r: serde_json::Value)
    ensures
        json_of(r) == Json::Null,
{
    serde_json::Value::Null
}

/// Relies on the `serde_json::Value::String` variant.
#[verifier::external_body]
fn json_string(s: String) -> (r: serde_json::Value)
    ensures
        json_of(r) == Json::Str(s@),
{
    serde_json::Value::String(s)
}

/// Relies on the `serde_json::Value::Array` variant.
#[verifier::external_body]
fn json_array(items: Vec<serde_json::Value>) -> (r: serde_json::Value)
    ensures
        json_of(r) == Json::Array(items@.map_values(|x: serde_json::Value| json_of(x))),
{
    serde_json::Value::Array(items)
}

/// Relies on `serde_json::Map::from_iter` and the `serde_json::Value::Object`
/// variant: an object with the one member `key`.
#[verifier::external_body]
fn json_object_with(key: String, v: serde_json::Value) -> (r: serde_json::Value)
    ensures
        json_of(r) == Json::Object(map![key@ => json_of(v)]),
{
    serde_json::Value::Object(serde_json::Map::from_iter([(key, v)]))
}

/// Why a configuration payload was refused.
#[derive(Clone, Copy, Debug, PartialEq, Eq, Structural)]
pub enum ConfigError {
    /// The payload is not UTF-8 text.
    NotText,
    /// The payload is not a JSON document.
    Syntax,
    /// The document is not an object, or `redis_nodes` is neither absent, null
    /// nor an array of strings.
    Shape,
}

/// The configuration: the known backend nodes, if any were given.
#[derive(Debug)]
pub struct HeimdallRootConf {
    pub redis_nodes: Option<Vec<String>>,
}

/// A configuration as plain values.
pub type ConfModel = Option<Seq<Seq<char>>>;

impl View for HeimdallRootConf {
    type V = ConfModel;

    open spec fn view(&self) -> ConfModel {
        match self.redis_nodes {
            Some(ns) => Some(ns@.map_values(|n: String| n@)),
            None => None,
        }
    }
}

impl Default for HeimdallRootConf {
    fn default() -> (r: Self)
        ensures
            r@ == None::<Seq<Seq<char>>>,
    {
        HeimdallRootConf { redis_nodes: None }
    }
}

/// The key of the backend node list.
pub open spec fn nodes_key() -> Seq<char> {
    "redis_nodes"@
}

/// The configuration that a JSON document describes. Members other than
/// `redis_nodes` are ignored; an absent or null `redis_nodes` means none given.
pub open spec fn conf_of_json(j: Json) -> Result<ConfModel, ConfigError> {
    match j {
        Json::Object(m) => {
            if !m.contains_key(nodes_key()) {
                Ok(None)
            } else {
                match m[nodes_key()] {
                    Json::Null => Ok(None),
                    Json::Array(items) => {
                        if forall|i: int| 0 <= i < items.len() ==> (#[trigger] items[i]) is Str {
                            Ok(Some(items.map_values(|x: Json| x->Str_0)))
                        } else {
                            Err(ConfigError::Shape)
                        }
                    },
                    _ => Err(ConfigError::Shape),
                }
            }
        },
        _ => Err(ConfigError::Shape),
    }
}

/// The configuration that a payload describes.
pub open spec fn conf_of_payload(b: Seq<u8>) -> Result<ConfModel, ConfigError> {
    match json_parse(b) {
        Some(j) => conf_of_json(j),
        None => Err(ConfigError::Syntax),
    }
}

/// The JSON document that encodes a configuration.
pub open spec fn json_of_conf(c: ConfModel) -> Json {
    Json::Object(
        map![nodes_key() => match c {
            Some(ns) => Json::Array(ns.map_values(|n: Seq<char>| Json::Str(n))),
            None => Json::Null,
        }],
    )
}

/// A parse outcome as plain values.
pub open spec fn conf_result_view(r: Result<HeimdallRootConf, ConfigError>) -> Result<
    ConfModel,
    ConfigError,
> {
    match r {
        Ok(c) => Ok(c@),
        Err(e) => Err(e),
    }
}

/// Reads the configuration from a JSON value.
pub fn conf_from_value(v: &serde_json::Value) -> (r: Result<HeimdallRootConf, ConfigError>)
    ensures
        conf_result_view(r) == conf_of_json(json_of(*v)),
{
    let nodes = match json_member(v, "redis_nodes") {
        Some(n) => n,
        None => {
            if v.is_object() {
                return Ok(HeimdallRootConf { redis_nodes: None });
            } else {
                return Err(ConfigError::Shape);
            }
        },
    };
    if nodes.is_null() {
        return Ok(HeimdallRootConf { redis_nodes: None });
    }
    let items = match nodes.as_array() {
        Some(a) => a,
        None => {
            return Err(ConfigError::Shape);
        },
    };
    let ghost model = items@.map_values(|x: serde_json::Value| json_of(x));
    assert(json_of(*v)->Object_0[nodes_key()] == Json::Array(model));
    let mut out: Vec<String> = Vec::new();
    let mut i: usize = 0;
    while i < items.len()
        invariant
            i <= items@.len(),
            model == items@.map_values(|x: serde_json::Value| json_of(x)),
            json_of(*v) is Object,
            json_of(*v)->Object_0.contains_key(nodes_key()),
            json_of(*v)->Object_0[nodes_key()] == Json::Array(model),
            out@.len() == i,
            forall|j: int| 0 <= j < i ==> (#[trigger] model[j]) is Str && out@[j]@ == model[j]->Str_0,
        decreases items@.len() - i,
    {
        match items[i].as_str() {
            Some(s) => {
                out.push(String::from_str(s));
            },
            None => {
                assert(!(model[i as int] is Str));
                return Err(ConfigError::Shape);
            },
        }
        i = i + 1;
    }
    let r = HeimdallRootConf { redis_nodes: Some(out) };
    assert(r@->0 =~= model.map_values(|x: Json| x->Str_0));
    Ok(r)
}

/// Reads the configuration from a payload of JSON text.
pub fn parse_config(payload: &[u8]) -> (r: Result<HeimdallRootConf, ConfigError>)
    ensures
        conf_result_view(r) == conf_of_payload(payload@),
{
    match parse_json(payload) {
        Ok(v) => conf_from_value(&v),
        Err(_) => Err(ConfigError::Syntax),
    }
}

/// Encodes a configuration as a JSON value, in the payload's format.
pub fn conf_to_value(c: &HeimdallRootConf) -> (r: serde_json::Value)
    ensures
        json_of(r) == json_of_conf(c@),
{
    let nodes = match &c.redis_nodes {
        Some(ns) => {
            let mut items: Vec<serde_json::Value> = Vec::new();
            let mut i: usize = 0;
            while i < ns.len()
                invariant
                    i <= ns@.len(),
                    items@.len() == i,
                    forall|j: int|
                        0 <= j < i ==> json_of(#[trigger] items@[j]) == Json::Str(ns@[j]@),
                decreases ns@.len() - i,
            {
                items.push(json_string(ns[i].clone()));
                i = i + 1;
            }
            assert(items@.map_values(|x: serde_json::Value| json_of(x)) =~= ns@.map_values(
                |n: String| n@,
            ).map_values(|n: Seq<char>| Json::Str(n)));
            let r = json_array(items);
            r
        },
        None => json_null(),
    };
    json_object_with(String::from_str("redis_nodes"), nodes)
}

/// Whether a document is refused as a configuration: it is no object, or its
/// `redis_nodes` is neither null nor an array of strings.
pub open spec fn malformed(j: Json) -> bool {
    match j {
        Json::Object(m) => m.contains_key(nodes_key()) && match m[nodes_key()] {
            Json::Null => false,
            Json::Array(items) => exists|i: int| 0 <= i < items.len() && !(#[trigger] items[i] is Str),
            _ => true,
        },
        _ => true,
    }
}

/// Round trip: the document that encodes a configuration reads back as that
/// same configuration.
pub proof fn lemma_config_round_trip(c: ConfModel)
    ensures
        conf_of_json(json_of_conf(c)) == Ok::<ConfModel, ConfigError>(c),
{
    let j = json_of_conf(c);
    assert(j->Object_0.contains_key(nodes_key()));
    if let Some(ns) = c {
        let items = ns.map_values(|n: Seq<char>| Json::Str(n));
        assert(j->Object_0[nodes_key()] == Json::Array(items));
        assert(forall|i: int| 0 <= i < items.len() ==> (#[trigger] items[i]) is Str);
        assert(items.map_values(|x: Json| x->Str_0) =~= ns);
    }
}

/// A document without `redis_nodes` reads as the default configuration, with
/// no nodes, and is not refused.
pub proof fn lemma_absent_nodes_is_default(m: Map<Seq<char>, Json>)
    requires
        !m.contains_key(nodes_key()),
    ensures
        conf_of_json(Json::Object(m)) == Ok::<ConfModel, ConfigError>(None),
{
}

/// A payload that is no JSON document, or whose document is malformed, is
/// refused rather than read as a default.
pub proof fn lemma_malformed_payload_refused(b: Seq<u8>)
    requires
        json_parse(b) matches Some(j) ==> malformed(j),
    ensures
        conf_of_payload(b) is Err,
{
}

} // verus!
