//! Checking the arguments of a tool call against the tool's input schema
//! with `jsonschema`, and turning what the validator reports into the
//! library's schema errors.

use vstd::prelude::*;
use jsonschema::error::ValidationErrorKind as Kind;
use jsonschema::error::TypeKind;
use crate::json::{field_of, json_from_serde, json_read, json_text, read_json, read_view, to_json_string, JsonValue};
use crate::session::{ChatToolCall, PendingToolCall, SessionContext};
use crate::mcp_servers::{find_mcp_tool, find_server, mcp_tool_of, server_by_id, McpServerInfo};
use crate::text::{str_eq, strings_view, trim, trim_seq};
use crate::tool_flow::{
    ready_requests, refused_calls, PendingToolError, call_plan_spec, is_call_record, plan_tool_call, finish_with_violations, opt_view, push_violations_at, violations_at, violations_plan_spec,
    violations_view, CallPlan, SchemaErrorKind, ToolValidationViolation, ValidationRequest,
    ViolationText,
};

verus! {

#[verifier::external_type_specification]
#[verifier::external_body]
pub struct ExValidationErrorKind(Kind);

/// One error of the validator as plain values: its place in the instance
/// (as a JSON pointer), the part of the instance it is about, its message, the schema keyword that failed, the names its kind carries (a
/// missing required property, unexpected properties, expected types), the
/// text it carries (a limit, a format, a pattern), whether it is one of the
/// kinds the keyword alone does not tell apart (`oneOf` matched by several
/// alternatives, or a custom keyword), and the value a `const` asked for.
pub struct RawSchemaError {
    pub instance_path: String,
    pub instance: JsonValue,
    pub message: String,
    pub keyword: String,
    pub names: Vec<String>,
    pub text: Option<String>,
    pub marked: bool,
    pub constant: Option<JsonValue>,
}

/// The plain view of a raw error.
pub type RawView = (
    Seq<char>,
    JsonValue,
    Seq<char>,
    Seq<char>,
    Seq<Seq<char>>,
    Option<Seq<char>>,
    bool,
    Option<JsonValue>,
);

pub open spec fn raw_view(e: RawSchemaError) -> RawView {
    (
        e.instance_path@,
        e.instance,
        e.message@,
        e.keyword@,
        strings_view(e.names@),
        opt_view(e.text),
        e.marked,
        e.constant,
    )
}

pub open spec fn raw_views(v: Seq<RawSchemaError>) -> Seq<RawView> {
    v.map_values(|e: RawSchemaError| raw_view(e))
}

/// What `jsonschema` reports for the instance whose JSON text is
/// `instance` against the schema whose JSON text is `schema`: its errors in
/// the order it gives them, or `None` when a text is not JSON or the schema
/// does not compile.
pub uninterp spec fn schema_errors(schema: Seq<char>, instance: Seq<char>) -> Option<Seq<RawView>>;

/// `serde_json::from_str` on both texts, `jsonschema::validator_for` on the
/// schema and `Validator::iter_errors` on the instance, each error taken
/// apart into plain values. What errors come back is left to the name
/// `schema_errors`.
#[verifier::external_body]
fn validate_json_texts(schema: &str, instance: &str) -> (r: Option<Vec<RawSchemaError>>)
    ensures
        match r {
            Some(v) => schema_errors(schema@, instance@) == Some(raw_views(v@)),
            None => schema_errors(schema@, instance@) is None,
        },
{
    let schema: serde_json::Value = serde_json::from_str(schema).ok()?;
    let instance: serde_json::Value = serde_json::from_str(instance).ok()?;
    let validator = jsonschema::validator_for(&schema).ok()?;
    let mut out = Vec::new();
    for e in validator.iter_errors(&instance) {
        let k = e.kind();
        out.push(RawSchemaError { instance_path: e.instance_path().to_string(), instance: json_from_serde(e.instance()),
            message: e.to_string(), keyword: k.keyword().to_string(), names: kind_names(k),
            text: kind_text(k), marked: kind_marked(k), constant: kind_constant(k) });
    }
    Some(out)
}

/// The names an error kind of `jsonschema` carries: the missing property of
/// `required` (when the schema gave it as a string), the unexpected
/// properties, or the expected types.
#[verifier::external_body]
fn kind_names(k: &Kind) -> (r: Vec<String>) {
    match k {
        Kind::Required { property } => property.as_str().map(|p| vec![p.to_string()]).unwrap_or_default(),
        Kind::AdditionalProperties { unexpected } => unexpected.clone(),
        Kind::UnevaluatedProperties { unexpected } => unexpected.clone(),
        Kind::Type { kind: TypeKind::Single(t) } => vec![t.to_string()],
        Kind::Type { kind: TypeKind::Multiple(ts) } => ts.iter().map(|t| t.to_string()).collect(),
        _ => Vec::new(),
    }
}

/// The text an error kind of `jsonschema` carries: a limit, a step, a
/// format or a pattern.
#[verifier::external_body]
fn kind_text(k: &Kind) -> (r: Option<String>) {
    match k {
        Kind::ExclusiveMaximum { limit } | Kind::ExclusiveMinimum { limit }
        | Kind::Maximum { limit } | Kind::Minimum { limit } => Some(limit.to_string()),
        Kind::MaxItems { limit } | Kind::MaxLength { limit } | Kind::MaxProperties { limit }
        | Kind::MinItems { limit } | Kind::MinLength { limit } | Kind::MinProperties { limit } => Some(limit.to_string()),
        Kind::MultipleOf { multiple_of } => Some(multiple_of.to_string()),
        Kind::Format { format } => Some(format.clone()),
        Kind::Pattern { pattern } => Some(pattern.clone()),
        _ => None,
    }
}

/// The value a `const` error of `jsonschema` asked for, converted.
#[verifier::external_body]
fn kind_constant(k: &Kind) -> (r: Option<JsonValue>) {
    match k {
        Kind::Constant { expected_value } => Some(json_from_serde(expected_value)),
        _ => None,
    }
}

/// The text Rust's `{:?}` writes for the string `text`: quoted, with
/// escapes.
pub uninterp spec fn debug_quoted(text: Seq<char>) -> Seq<char>;

/// `format!("{s:?}")` on a string. What it writes is left to the name
/// `debug_quoted`.
#[verifier::external_body]
fn debug_quote(s: &str) -> (r: String)
    ensures
        r@ == debug_quoted(s@),
{
    format!("{s:?}")
}

/// How a `const` error names the value it asked for: a string as `{:?}`
/// quotes it, any other value as its JSON text (nothing when the error
/// carries no value).
pub open spec fn constant_text(c: Option<JsonValue>) -> Seq<char> {
    match c {
        Some(JsonValue::Str(s)) => debug_quoted(s@),
        Some(v) => json_text(v),
        None => seq![],
    }
}

/// The text naming a `const` value (see `constant_text`).
fn constant_label(c: &Option<JsonValue>) -> (r: String)
    ensures
        r@ == constant_text(*c),
{
    match c {
        Some(JsonValue::Str(s)) => debug_quote(s.as_str()),
        Some(v) => to_json_string(v),
        None => String::new(),
    }
}

/// Whether an error kind of `jsonschema` is `oneOf` matched by several
/// alternatives, or a custom keyword.
#[verifier::external_body]
fn kind_marked(k: &Kind) -> (r: bool) {
    matches!(k, Kind::OneOfMultipleValid { .. } | Kind::Custom { .. })
}

// ---------------------------------------------------------------------------
// Looking up a member
// ---------------------------------------------------------------------------

/// The value of the first member of `m` named `key`.
fn member<'a>(m: &'a Vec<(String, JsonValue)>, key: &str) -> (r: Option<&'a JsonValue>)
    ensures
        match r {
            Some(c) => field_of(m@, key@) == Some(*c),
            None => field_of(m@, key@) is None,
        },
{
    let mut i: usize = 0;
    assert(m@.skip(0) =~= m@);
    while i < m.len()
        invariant
            i <= m@.len(),
            field_of(m@, key@) == field_of(m@.skip(i as int), key@),
        decreases m.len() - i,
    {
        assert(m@.skip(i as int).drop_first() =~= m@.skip(i + 1));
        assert(m@.skip(i as int)[0] == m@[i as int]);
        if str_eq(m[i].0.as_str(), key) {
            return Some(&m[i].1);
        }
        i = i + 1;
    }
    None
}

// ---------------------------------------------------------------------------
// The kind of an error
// ---------------------------------------------------------------------------

pub open spec fn first_name(names: Seq<Seq<char>>) -> Option<Seq<char>> {
    if names.len() > 0 {
        Some(names[0])
    } else {
        None
    }
}

pub open spec fn text_or_empty(t: Option<Seq<char>>) -> Seq<char> {
    match t {
        Some(x) => x,
        None => seq![],
    }
}

/// `k` is the kind the keyword, names, text and mark of a raw error stand
/// for: `oneOf` is split by the mark, another marked error is a custom
/// keyword, `pattern` without a pattern is a failure of the regular
/// expression engine, and the keywords of encodings, media types and
/// references (or any other) are problems of the schema.
pub open spec fn kind_matches(rv: RawView, k: SchemaErrorKind) -> bool {
    let kw = rv.3;
    let names = rv.4;
    let text = text_or_empty(rv.5);
    if kw == "oneOf"@ {
        if rv.6 { k is OneOfMultipleValid } else { k is OneOfNotValid }
    } else if rv.6 {
        k is Custom
    } else if kw == "required"@ {
        k matches SchemaErrorKind::Required { property } && opt_view(property) == first_name(names)
    } else if kw == "additionalProperties"@ {
        k matches SchemaErrorKind::AdditionalProperties { unexpected } && strings_view(unexpected@) == names
    } else if kw == "unevaluatedProperties"@ {
        k matches SchemaErrorKind::UnevaluatedProperties { unexpected } && strings_view(unexpected@) == names
    } else if kw == "type"@ {
        k matches SchemaErrorKind::Type { kinds } && strings_view(kinds@) == names
    } else if kw == "additionalItems"@ {
        k is AdditionalItems
    } else if kw == "unevaluatedItems"@ {
        k is UnevaluatedItems
    } else if kw == "anyOf"@ {
        k is AnyOf
    } else if kw == "const"@ {
        k matches SchemaErrorKind::Constant { expected } && expected@ == constant_text(rv.7)
    } else if kw == "contains"@ {
        k is Contains
    } else if kw == "enum"@ {
        k is Enum
    } else if kw == "exclusiveMaximum"@ {
        k matches SchemaErrorKind::ExclusiveMaximum { limit } && limit@ == text
    } else if kw == "exclusiveMinimum"@ {
        k matches SchemaErrorKind::ExclusiveMinimum { limit } && limit@ == text
    } else if kw == "falseSchema"@ {
        k is FalseSchema
    } else if kw == "format"@ {
        k matches SchemaErrorKind::Format { format } && format@ == text
    } else if kw == "maxItems"@ {
        k matches SchemaErrorKind::MaxItems { limit } && limit@ == text
    } else if kw == "maximum"@ {
        k matches SchemaErrorKind::Maximum { limit } && limit@ == text
    } else if kw == "maxLength"@ {
        k matches SchemaErrorKind::MaxLength { limit } && limit@ == text
    } else if kw == "maxProperties"@ {
        k matches SchemaErrorKind::MaxProperties { limit } && limit@ == text
    } else if kw == "minItems"@ {
        k matches SchemaErrorKind::MinItems { limit } && limit@ == text
    } else if kw == "minimum"@ {
        k matches SchemaErrorKind::Minimum { limit } && limit@ == text
    } else if kw == "minLength"@ {
        k matches SchemaErrorKind::MinLength { limit } && limit@ == text
    } else if kw == "minProperties"@ {
        k matches SchemaErrorKind::MinProperties { limit } && limit@ == text
    } else if kw == "multipleOf"@ {
        k matches SchemaErrorKind::MultipleOf { multiple_of } && multiple_of@ == text
    } else if kw == "not"@ {
        k is Not
    } else if kw == "pattern"@ {
        if rv.5 is Some {
            k matches SchemaErrorKind::Pattern { pattern } && pattern@ == text
        } else {
            k is SchemaProblem
        }
    } else if kw == "propertyNames"@ {
        k is PropertyNames
    } else if kw == "uniqueItems"@ {
        k is UniqueItems
    } else {
        k is SchemaProblem
    }
}

fn copy_strings(v: &Vec<String>) -> (r: Vec<String>)
    ensures
        r@ == v@,
{
    let mut out: Vec<String> = Vec::new();
    let mut i: usize = 0;
    while i < v.len()
        invariant
            i <= v@.len(),
            out@ == v@.take(i as int),
        decreases v.len() - i,
    {
        out.push(v[i].clone());
        assert(out@ =~= v@.take(i + 1));
        i = i + 1;
    }
    assert(out@ =~= v@);
    out
}

/// The kind a raw error stands for (see `kind_matches`).
pub fn schema_error_kind(e: &RawSchemaError) -> (k: SchemaErrorKind)
    ensures
        kind_matches(raw_view(*e), k),
{
    let kw = e.keyword.as_str();
    let text = match &e.text {
        Some(t) => t.clone(),
        None => String::new(),
    };
    assert(text@ == text_or_empty(opt_view(e.text)));
    if str_eq(kw, "oneOf") {
        if e.marked { SchemaErrorKind::OneOfMultipleValid } else { SchemaErrorKind::OneOfNotValid }
    } else if e.marked {
        SchemaErrorKind::Custom
    } else if str_eq(kw, "required") {
        let property = if e.names.len() > 0 { Some(e.names[0].clone()) } else { None };
        SchemaErrorKind::Required { property }
    } else if str_eq(kw, "additionalProperties") {
        SchemaErrorKind::AdditionalProperties { unexpected: copy_strings(&e.names) }
    } else if str_eq(kw, "unevaluatedProperties") {
        SchemaErrorKind::UnevaluatedProperties { unexpected: copy_strings(&e.names) }
    } else if str_eq(kw, "type") {
        SchemaErrorKind::Type { kinds: copy_strings(&e.names) }
    } else if str_eq(kw, "additionalItems") {
        SchemaErrorKind::AdditionalItems
    } else if str_eq(kw, "unevaluatedItems") {
        SchemaErrorKind::UnevaluatedItems
    } else if str_eq(kw, "anyOf") {
        SchemaErrorKind::AnyOf
    } else if str_eq(kw, "const") {
        SchemaErrorKind::Constant { expected: constant_label(&e.constant) }
    } else if str_eq(kw, "contains") {
        SchemaErrorKind::Contains
    } else if str_eq(kw, "enum") {
        SchemaErrorKind::Enum
    } else if str_eq(kw, "exclusiveMaximum") {
        SchemaErrorKind::ExclusiveMaximum { limit: text }
    } else if str_eq(kw, "exclusiveMinimum") {
        SchemaErrorKind::ExclusiveMinimum { limit: text }
    } else if str_eq(kw, "falseSchema") {
        SchemaErrorKind::FalseSchema
    } else if str_eq(kw, "format") {
        SchemaErrorKind::Format { format: text }
    } else if str_eq(kw, "maxItems") {
        SchemaErrorKind::MaxItems { limit: text }
    } else if str_eq(kw, "maximum") {
        SchemaErrorKind::Maximum { limit: text }
    } else if str_eq(kw, "maxLength") {
        SchemaErrorKind::MaxLength { limit: text }
    } else if str_eq(kw, "maxProperties") {
        SchemaErrorKind::MaxProperties { limit: text }
    } else if str_eq(kw, "minItems") {
        SchemaErrorKind::MinItems { limit: text }
    } else if str_eq(kw, "minimum") {
        SchemaErrorKind::Minimum { limit: text }
    } else if str_eq(kw, "minLength") {
        SchemaErrorKind::MinLength { limit: text }
    } else if str_eq(kw, "minProperties") {
        SchemaErrorKind::MinProperties { limit: text }
    } else if str_eq(kw, "multipleOf") {
        SchemaErrorKind::MultipleOf { multiple_of: text }
    } else if str_eq(kw, "not") {
        SchemaErrorKind::Not
    } else if str_eq(kw, "pattern") {
        if e.text.is_some() { SchemaErrorKind::Pattern { pattern: text } } else { SchemaErrorKind::SchemaProblem }
    } else if str_eq(kw, "propertyNames") {
        SchemaErrorKind::PropertyNames
    } else if str_eq(kw, "uniqueItems") {
        SchemaErrorKind::UniqueItems
    } else {
        SchemaErrorKind::SchemaProblem
    }
}

// ---------------------------------------------------------------------------
// Checking a call
// ---------------------------------------------------------------------------

/// `x` is what the arguments of `req` are checked as: the arguments, or an
/// empty object when the call has none.
pub open spec fn is_checked_instance(req: ValidationRequest, x: JsonValue) -> bool {
    match req.value {
        Some(v) => x == v,
        None => x matches JsonValue::Object(m) && m@.len() == 0,
    }
}

/// The violations that raw errors `raws` give, their kinds being `ks`: each
/// read at its place, on the part of the instance it is about.
pub open spec fn raw_violations(raws: Seq<RawView>, ks: Seq<SchemaErrorKind>) -> Seq<ViolationText>
    decreases raws.len(),
{
    if raws.len() == 0 || ks.len() == 0 {
        seq![]
    } else {
        raw_violations(raws.drop_last(), ks.drop_last()) + violations_at(
            raws.last().0,
            raws.last().2,
            ks.last(),
            raws.last().1,
        )
    }
}

/// The plan for a call of tool `tool` whose arguments are checked as `x`
/// against `schema`: without a schema, or when `jsonschema` cannot read
/// it, nothing is checked; otherwise the violations of what it reports
/// decide (see `violations_plan_spec`).
pub open spec fn call_checked(
    req: ValidationRequest,
    tool: Seq<char>,
    schema: Option<JsonValue>,
    x: JsonValue,
    r: CallPlan,
) -> bool {
    match schema {
        None => violations_plan_spec(req, seq![], seq![], r),
        Some(s) => match schema_errors(json_text(s), json_text(x)) {
            None => violations_plan_spec(req, seq![], seq![], r),
            Some(raws) => raws_checked(req, tool, raws, x, r),
        },
    }
}

/// The plan decided by the violations of raw errors `raws`, read with the
/// kinds they stand for.
pub open spec fn raws_checked(
    req: ValidationRequest,
    tool: Seq<char>,
    raws: Seq<RawView>,
    x: JsonValue,
    r: CallPlan,
) -> bool {
    exists|ks: Seq<SchemaErrorKind>|
        #![trigger raw_violations(raws, ks)]
        ks.len() == raws.len() && (forall|i: int|
            0 <= i < ks.len() ==> kind_matches(raws[i], #[trigger] ks[i])) && violations_plan_spec(
            req,
            tool,
            raw_violations(raws, ks),
            r,
        )
}

proof fn lemma_checked_plan_finished(
    req: ValidationRequest,
    tool: Seq<char>,
    schema: Option<JsonValue>,
    x: JsonValue,
    r: CallPlan,
)
    requires
        call_checked(req, tool, schema, x, r),
    ensures
        !(r is Validate),
{
    match schema {
        None => {},
        Some(s) => match schema_errors(json_text(s), json_text(x)) {
            None => {},
            Some(raws) => {
                let ks = choose|ks: Seq<SchemaErrorKind>|
                    #![trigger raw_violations(raws, ks)]
                    ks.len() == raws.len() && (forall|i: int|
                        0 <= i < ks.len() ==> kind_matches(raws[i], #[trigger] ks[i]))
                        && violations_plan_spec(req, tool, raw_violations(raws, ks), r);
                assert(violations_plan_spec(req, tool, raw_violations(raws, ks), r));
            },
        },
    }
}

/// Checks the arguments of a call of tool `tool_name` against the tool's
/// input `schema` (none when the tool has none) and finishes the call's
/// plan (see `call_checked`).
pub fn validate_call(req: ValidationRequest, tool_name: &str, schema: Option<&JsonValue>) -> (r:
    CallPlan)
    ensures
        exists|x: JsonValue|
            #[trigger] is_checked_instance(req, x) && call_checked(
                req,
                tool_name@,
                match schema {
                    Some(s) => Some(*s),
                    None => None,
                },
                x,
                r,
            ),
{
    let empty = JsonValue::Object(Vec::new());
    let ghost x = if req.value is Some {
        req.value->0
    } else {
        empty
    };
    assert(is_checked_instance(req, x));
    let ghost sch = match schema {
        Some(s) => Some(*s),
        None => None,
    };
    let s = match schema {
        Some(s) => s,
        None => {
            let none: Vec<ToolValidationViolation> = Vec::new();
            assert(violations_view(none@) =~= Seq::<ViolationText>::empty());
            let r = finish_with_violations(req, "", none);
            proof {
                reveal_strlit("");
            }
            assert(call_checked(req, tool_name@, sch, x, r));
            return r;
        },
    };
    let ghost req0 = req;
    let ghost mut kso: Seq<SchemaErrorKind> = seq![];
    let ghost mut rvo: Seq<RawView> = seq![];
    let found: Option<Vec<ToolValidationViolation>> = {
        let root: &JsonValue = match &req.value {
            Some(v) => v,
            None => &empty,
        };
        assert(*root == x);
        let schema_text = to_json_string(s);
        let instance_text = to_json_string(root);
        match validate_json_texts(schema_text.as_str(), instance_text.as_str()) {
            None => None,
            Some(raws) => {
                let ghost rv = raw_views(raws@);
                let ghost mut ks: Seq<SchemaErrorKind> = seq![];
                let mut out: Vec<ToolValidationViolation> = Vec::new();
                let mut i: usize = 0;
                assert(rv.take(0) =~= Seq::<RawView>::empty());
                while i < raws.len()
                    invariant
                        i <= raws@.len(),
                        rv == raw_views(raws@),
                        ks.len() == i,
                        forall|j: int| 0 <= j < i ==> kind_matches(rv[j], #[trigger] ks[j]),
                        violations_view(out@) == raw_violations(rv.take(i as int), ks),
                        *root == x,
                    decreases raws.len() - i,
                {
                    let e = &raws[i];
                    let k = schema_error_kind(e);
                    push_violations_at(&mut out, e.instance_path.as_str(), &e.message, &k, &e.instance);
                    proof {
                        let t = rv.take(i + 1);
                        assert(t.drop_last() =~= rv.take(i as int));
                        assert(t.last() == rv[i as int]);
                        assert(ks.push(k).drop_last() =~= ks);
                        ks = ks.push(k);
                    }
                    i = i + 1;
                }
                assert(rv.take(raws@.len() as int) =~= rv);
                proof {
                    kso = ks;
                    rvo = rv;
                }
                assert(schema_errors(json_text(*s), json_text(x)) == Some(rvo));
                assert(kso.len() == rvo.len());
                assert(forall|j: int| 0 <= j < kso.len() ==> kind_matches(rvo[j], #[trigger] kso[j]));
                assert(violations_view(out@) == raw_violations(rvo, kso));
                Some(out)
            },
        }
    };
    match found {
        None => {
            let none: Vec<ToolValidationViolation> = Vec::new();
            assert(violations_view(none@) =~= Seq::<ViolationText>::empty());
            let r = finish_with_violations(req, "", none);
            proof {
                reveal_strlit("");
            }
            r
        },
        Some(vs) => {
            let r = finish_with_violations(req, tool_name, vs);
            assert(violations_plan_spec(req0, tool_name@, raw_violations(rvo, kso), r));
            assert(sch == Some(*s));
            assert(schema_errors(json_text(*s), json_text(x)) == Some(rvo));
            assert(kso.len() == rvo.len());
            assert(forall|j: int| 0 <= j < kso.len() ==> kind_matches(rvo[j], #[trigger] kso[j]));
            assert(raws_checked(req0, tool_name@, rvo, x, r));
            assert(call_checked(req0, tool_name@, sch, x, r));
            r
        },
    }
}

/// The input schema of tool `tool_name` on server `server_id`: that of the
/// tool's listed name, when the server lists and allows the tool and gave
/// a schema for it.
pub open spec fn tool_schema_of(servers: Seq<McpServerInfo>, server_id: Seq<char>, tool_name: Seq<
    char,
>) -> Option<JsonValue> {
    match mcp_tool_of(servers, server_id, tool_name) {
        Some(t) => match server_by_id(servers, server_id) {
            Some(s) => field_of(s.tool_schemas@, t),
            None => None,
        },
        None => None,
    }
}

/// Looks up the input schema of a tool (see `tool_schema_of`).
pub fn tool_input_schema<'a>(servers: &'a Vec<McpServerInfo>, server_id: &str, tool_name: &str) -> (r:
    Option<&'a JsonValue>)
    ensures
        match r {
            Some(x) => tool_schema_of(servers@, server_id@, tool_name@) == Some(*x),
            None => tool_schema_of(servers@, server_id@, tool_name@) is None,
        },
{
    let t = match find_mcp_tool(servers, server_id, tool_name) {
        Some(t) => t,
        None => {
            return None;
        },
    };
    match find_server(servers, server_id) {
        Some(k) => member(&servers[k].tool_schemas, t.as_str()),
        None => None,
    }
}

/// The plan of one call of a turn: planned from its arguments (see
/// `call_plan_spec`), and, when that asks for it, checked against the input
/// schema of its tool (see `call_checked`).
pub open spec fn turn_call_planned(
    index: u32,
    call: PendingToolCall,
    servers: Seq<McpServerInfo>,
    parsed: Result<JsonValue, Seq<char>>,
    p: CallPlan,
) -> bool {
    exists|p0: CallPlan|
        #![trigger call_plan_spec(index, call, servers, parsed, p0)]
        call_plan_spec(index, call, servers, parsed, p0) && match p0 {
            CallPlan::Validate(req) => {
                let tool = match mcp_tool_of(servers, req.server_id@, req.tool_name@) {
                    Some(t) => t,
                    None => req.tool_name@,
                };
                exists|x: JsonValue|
                    #[trigger] is_checked_instance(req, x) && call_checked(
                        req,
                        tool,
                        tool_schema_of(servers, req.server_id@, req.tool_name@),
                        x,
                        p,
                    )
            },
            _ => p == p0,
        }
}

/// Plans the tool calls a reply asked for, in order: for each, its record
/// for the assistant message and its plan (see `turn_call_planned`), its
/// trimmed arguments read with `serde_json`.
pub fn plan_turn_calls(
    pending: &Vec<(u32, PendingToolCall)>,
    servers: &Vec<McpServerInfo>,
) -> (r: (Vec<ChatToolCall>, Vec<CallPlan>))
    ensures
        r.0@.len() == pending@.len(),
        r.1@.len() == pending@.len(),
        forall|k: int|
            0 <= k < pending@.len() ==> is_call_record(#[trigger] r.0@[k], pending@[k].0, pending@[k].1),
        forall|k: int| 0 <= k < pending@.len() ==> !(#[trigger] r.1@[k] is Validate),
        forall|k: int|
            0 <= k < pending@.len() ==> turn_call_planned(
                pending@[k].0,
                pending@[k].1,
                servers@,
                json_read(trim_seq(pending@[k].1.arguments@)),
                #[trigger] r.1@[k],
            ),
{
    let mut records: Vec<ChatToolCall> = Vec::new();
    let mut plans: Vec<CallPlan> = Vec::new();
    let n = pending.len();
    let mut i: usize = 0;
    while i < n
        invariant
            n == pending@.len(),
            i <= n,
            records@.len() == i,
            plans@.len() == i,
            forall|k: int| 0 <= k < i ==> is_call_record(#[trigger] records@[k], pending@[k].0, pending@[k].1),
            forall|k: int| 0 <= k < i ==> !(#[trigger] plans@[k] is Validate),
            forall|k: int|
                0 <= k < i ==> turn_call_planned(
                    pending@[k].0,
                    pending@[k].1,
                    servers@,
                    json_read(trim_seq(pending@[k].1.arguments@)),
                    #[trigger] plans@[k],
                ),
        decreases n - i,
    {
        let args = trim(pending[i].1.arguments.as_str());
        let p = read_json(args.as_str());
        let ghost parsed = json_read(trim_seq(pending@[i as int].1.arguments@));
        assert(read_view(p) == parsed);
        let (record, plan0) = plan_tool_call(pending[i].0, &pending[i].1, servers, p);
        let ghost p0 = plan0;
        let plan = match plan0 {
            CallPlan::Validate(req) => {
                let ghost rq = req;
                let tool = match find_mcp_tool(servers, req.server_id.as_str(), req.tool_name.as_str()) {
                    Some(t) => t,
                    None => req.tool_name.clone(),
                };
                let schema = tool_input_schema(servers, req.server_id.as_str(), req.tool_name.as_str());
                let r = validate_call(req, tool.as_str(), schema);
                proof {
                    let sch = match schema {
                        Some(x) => Some(*x),
                        None => None,
                    };
                    let x = choose|x: JsonValue|
                        #[trigger] is_checked_instance(req, x) && call_checked(req, tool@, sch, x, r);
                    lemma_checked_plan_finished(req, tool@, sch, x, r);
                }
                assert(exists|x: JsonValue|
                    #[trigger] is_checked_instance(rq, x) && call_checked(
                        rq,
                        tool@,
                        tool_schema_of(servers@, rq.server_id@, rq.tool_name@),
                        x,
                        r,
                    ));
                r
            },
            other => other,
        };
        assert(turn_call_planned(pending@[i as int].0, pending@[i as int].1, servers@, parsed, plan));
        records.push(record);
        plans.push(plan);
        i = i + 1;
    }
    (records, plans)
}

impl SessionContext {
    /// Starts the tool calls a reply asked for: each is planned (see
    /// `plan_turn_calls`), their records are kept, the calls that can run
    /// are queued in order, no call is active and the turn has no result
    /// yet. The refused calls come back, in order, to be recorded; together
    /// with the queued ones they are all the calls, each once.
    pub fn start_turn_tool_flow(
        &mut self,
        pending: &Vec<(u32, PendingToolCall)>,
        servers: &Vec<McpServerInfo>,
    ) -> (r: Vec<PendingToolError>)
        ensures
            *final(self) == (SessionContext {
                tool_call_records: final(self).tool_call_records,
                pending_tool_queue: final(self).pending_tool_queue,
                active_tool_request: None,
                tool_results: final(self).tool_results,
                ..*old(self)
            }),
            final(self).tool_results@.len() == 0,
            final(self).tool_call_records@.len() == pending@.len(),
            forall|k: int|
                0 <= k < pending@.len() ==> is_call_record(
                    #[trigger] final(self).tool_call_records@[k],
                    pending@[k].0,
                    pending@[k].1,
                ),
            exists|plans: Seq<CallPlan>|
                #![trigger ready_requests(plans)]
                plans.len() == pending@.len() && (forall|k: int|
                    0 <= k < pending@.len() ==> turn_call_planned(
                        pending@[k].0,
                        pending@[k].1,
                        servers@,
                        json_read(trim_seq(pending@[k].1.arguments@)),
                        #[trigger] plans[k],
                    )) && final(self).pending_tool_queue@ == ready_requests(plans) && r@
                    == refused_calls(plans),
            r@.len() + final(self).pending_tool_queue@.len() == pending@.len(),
    {
        let (records, plans) = plan_turn_calls(pending, servers);
        let ghost ps = plans@;
        let refused = self.start_tool_flow(records, plans);
        proof {
            crate::laws::law_every_call_queued_or_refused(ps);
        }
        assert(ready_requests(ps) == self.pending_tool_queue@);
        refused
    }
}

} // verus!
