//! Manifests as YAML text: the parse of what the create dialog sends, and
//! the YAML that the view and edit dialogs show.  `serde_yaml` does the
//! parsing and rendering, over `serde_json` values.
use vstd::prelude::*;
use serde_json::Value;
use crate::json::{opt_text, JsonNumber, JsonValue};
use crate::resource_panel::components::{apply_ok, parse_resource_apply, ParsedResourceApply};

verus! {

/// `serde_json::Value`, which `serde_yaml` parses into and renders from.
#[verifier::external_type_specification]
#[verifier::external_body]
pub struct ExSerdeJsonValue(serde_json::Value);

/// The document that `serde_yaml::from_str::<serde_json::Value>` reads
/// from a text, in the library's JSON model, or its error message.
pub uninterp spec fn yaml_document(text: Seq<char>) -> Result<JsonValue, Seq<char>>;

/// The YAML text that `serde_yaml::to_string` renders for a value, or its
/// error message.
pub uninterp spec fn yaml_rendering(value: JsonValue) -> Result<Seq<char>, Seq<char>>;

/// The indented JSON text that `serde_json::to_string_pretty` renders for
/// a value, or its error message.
pub uninterp spec fn pretty_json_rendering(value: JsonValue) -> Result<Seq<char>, Seq<char>>;

/// The library's form of a `serde_json` value, member for member; numbers
/// that are no integers keep their text.
#[verifier::external_body]
fn json_from_serde(v: &Value) -> JsonValue {
    match v {
        Value::Null => JsonValue::Null,
        Value::Bool(b) => JsonValue::Bool(*b),
        Value::Number(n) => JsonValue::Number(match (n.as_u64(), n.as_i64()) {
            (Some(u), _) => JsonNumber::PosInt(u),
            (None, Some(i)) => JsonNumber::NegInt(i),
            _ => JsonNumber::Float(n.to_string()),
        }),
        Value::String(s) => JsonValue::String(s.clone()),
        Value::Array(a) => JsonValue::Array(a.iter().map(json_from_serde).collect()),
        Value::Object(o) => JsonValue::Object(o.iter().map(|(k, x)| (k.clone(), json_from_serde(x))).collect()),
    }
}

/// The `serde_json` form of a library value, member for member.
#[verifier::external_body]
fn json_to_serde(v: &JsonValue) -> Value {
    match v {
        JsonValue::Null => Value::Null,
        JsonValue::Bool(b) => Value::Bool(*b),
        JsonValue::Number(JsonNumber::PosInt(u)) => Value::from(*u),
        JsonValue::Number(JsonNumber::NegInt(i)) => Value::from(*i),
        JsonValue::Number(JsonNumber::Float(t)) => t.parse::<serde_json::Number>().map_or(Value::Null, Value::Number),
        JsonValue::String(s) => Value::String(s.clone()),
        JsonValue::Array(a) => Value::Array(a.iter().map(json_to_serde).collect()),
        JsonValue::Object(o) => Value::Object(o.iter().map(|(k, x)| (k.clone(), json_to_serde(x))).collect()),
    }
}

/// `parsed` is what the parse of a text gives when the YAML reading of the
/// text is `doc`: the document, or an error with the parser's message.
pub open spec fn parsed_from(doc: Result<JsonValue, Seq<char>>, parsed: Result<JsonValue, String>) -> bool {
    match doc {
        Ok(v) => parsed == Ok::<JsonValue, String>(v),
        Err(e) => parsed matches Err(m) && m@ == e,
    }
}

/// Parses a YAML document.  Wraps `serde_yaml::from_str::<serde_json::Value>`
/// and converts the value; the outcome is named by `yaml_document`, a
/// function of the text alone.
#[verifier::external_body]
pub fn parse_yaml_document(yaml: &str) -> (r: Result<JsonValue, String>)
    ensures
        parsed_from(yaml_document(yaml@), r),
{
    match serde_yaml::from_str::<serde_json::Value>(yaml) {
        Ok(v) => Ok(json_from_serde(&v)),
        Err(e) => Err(e.to_string()),
    }
}

/// Renders a value as YAML.  Wraps `serde_yaml::to_string`; the outcome is
/// named by `yaml_rendering`, a function of the value alone.
#[verifier::external_body]
fn render_yaml(value: &JsonValue) -> (r: Result<String, String>)
    ensures
        match yaml_rendering(*value) {
            Ok(t) => r matches Ok(s) && s@ == t,
            Err(e) => r matches Err(m) && m@ == e,
        },
{
    match serde_yaml::to_string(&json_to_serde(value)) {
        Ok(s) => Ok(s),
        Err(e) => Err(e.to_string()),
    }
}

/// Renders a value as indented JSON.  Wraps `serde_json::to_string_pretty`;
/// the outcome is named by `pretty_json_rendering`.
#[verifier::external_body]
fn render_pretty_json(value: &JsonValue) -> (r: Result<String, String>)
    ensures
        match pretty_json_rendering(*value) {
            Ok(t) => r matches Ok(s) && s@ == t,
            Err(e) => r matches Err(m) && m@ == e,
        },
{
    match serde_json::to_string_pretty(&json_to_serde(value)) {
        Ok(s) => Ok(s),
        Err(e) => Err(e.to_string()),
    }
}

/// The text a manifest is shown as: its YAML, else its indented JSON, else
/// nothing.
pub open spec fn manifest_yaml_spec(value: JsonValue) -> Seq<char> {
    match yaml_rendering(value) {
        Ok(t) => t,
        Err(_) => match pretty_json_rendering(value) {
            Ok(t) => t,
            Err(_) => Seq::empty(),
        },
    }
}

/// The manifest as the view dialog shows it: YAML, with indented JSON when
/// YAML rendering fails, and empty when both fail.
pub fn full_manifest_yaml(raw: &JsonValue) -> (r: String)
    ensures
        r@ == manifest_yaml_spec(*raw),
{
    match render_yaml(raw) {
        Ok(s) => s,
        Err(_) => match render_pretty_json(raw) {
            Ok(s) => s,
            Err(_) => String::new(),
        },
    }
}

/// The manifest the edit dialog starts from: the editable form of the
/// manifest (see `editable_manifest`), shown as the view dialog shows it.
pub fn editable_resource_yaml(raw: JsonValue) -> (r: String)
    ensures
        exists|e: JsonValue| crate::resource_panel::components::editable_manifest_ok(raw, e) && r@ == manifest_yaml_spec(e),
{
    let edited = crate::resource_panel::components::editable_manifest(raw);
    let r = full_manifest_yaml(&edited);
    assert(crate::resource_panel::components::editable_manifest_ok(raw, edited) && r@ == manifest_yaml_spec(edited));
    r
}

/// The manifest as the custom resource dialogs show it: YAML, or the
/// rendering error after "failed to render yaml: ".
pub fn instance_manifest_yaml(raw: &JsonValue) -> (r: String)
    ensures
        match yaml_rendering(*raw) {
            Ok(t) => r@ == t,
            Err(e) => r@ == "failed to render yaml: "@ + e,
        },
{
    match render_yaml(raw) {
        Ok(s) => s,
        Err(e) => {
            let mut r = String::from_str("failed to render yaml: ");
            r.append(e.as_str());
            r
        },
    }
}

/// Parses the YAML that a create or edit dialog sends and checks it for
/// applying: a text that is no YAML document gives the parser's message;
/// a document is checked as `parse_resource_apply` checks it.
pub fn parse_resource_apply_yaml(yaml: &str, namespaced: bool, namespace_default: Option<&str>) -> (r: Result<ParsedResourceApply, String>)
    ensures
        match yaml_document(yaml@) {
            Ok(m) => apply_ok(Ok(m), namespaced, opt_text(namespace_default), r),
            Err(e) => r matches Err(x) && x@ == e,
        },
{
    let parsed = parse_yaml_document(yaml);
    parse_resource_apply(parsed, namespaced, namespace_default)
}

} // verus!
