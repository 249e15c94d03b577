use vstd::prelude::*;

use crate::json::{Json, JsonV, entries_view, items_view, push_entry, push_item};

verus! {

/// How a tool's output was made: as a success report or as plain text.
#[derive(PartialEq, Eq, Structural, Clone, Copy, Debug)]
pub enum ResultKind {
    Success,
    Text,
}

/// What a tool hands back to its caller when it succeeds.
#[derive(Debug)]
pub struct ToolResult {
    pub kind: ResultKind,
    pub output: String,
}

pub struct ToolResultV {
    pub kind: ResultKind,
    pub output: Seq<char>,
}

impl View for ToolResult {
    type V = ToolResultV;

    open spec fn view(&self) -> ToolResultV {
        ToolResultV { kind: self.kind, output: self.output@ }
    }
}

impl ToolResult {
    /// A successful run with the given report.
    pub fn success(output: String) -> (r: ToolResult)
        ensures
            r@ == (ToolResultV { kind: ResultKind::Success, output: output@ }),
    {
        ToolResult { kind: ResultKind::Success, output }
    }

    /// A run whose output is the given text.
    pub fn text(output: String) -> (r: ToolResult)
        ensures
            r@ == (ToolResultV { kind: ResultKind::Text, output: output@ }),
    {
        ToolResult { kind: ResultKind::Text, output }
    }
}

/// Why a tool failed.
#[derive(Debug)]
pub enum ToolError {
    /// The tool was made without a client.
    NotConfigured,
    /// A required argument is missing or is not a string; the text names it.
    Missing(String),
    /// The `action` argument names no action of the tool.
    Unsupported(String),
    /// The server answered with a failure code. `prefix` is the text that
    /// precedes the code in the message; `msg` is the server's message.
    ApiFailed { prefix: String, code: Json, msg: String },
    /// The server's answer to a token request held no token.
    AuthFailed(Json),
    /// The argument `field` holds `text`, which is no time of the form
    /// `YYYY-MM-DDTHH:MM:SS`.
    InvalidTime { field: String, text: String },
}

pub enum ToolErrorV {
    NotConfigured,
    Missing(Seq<char>),
    Unsupported(Seq<char>),
    ApiFailed { prefix: Seq<char>, code: JsonV, msg: Seq<char> },
    AuthFailed(JsonV),
    InvalidTime { field: Seq<char>, text: Seq<char> },
}

impl View for ToolError {
    type V = ToolErrorV;

    open spec fn view(&self) -> ToolErrorV {
        match self {
            ToolError::NotConfigured => ToolErrorV::NotConfigured,
            ToolError::Missing(s) => ToolErrorV::Missing(s@),
            ToolError::Unsupported(s) => ToolErrorV::Unsupported(s@),
            ToolError::ApiFailed { prefix, code, msg } => ToolErrorV::ApiFailed {
                prefix: prefix@,
                code: code@,
                msg: msg@,
            },
            ToolError::AuthFailed(body) => ToolErrorV::AuthFailed(body@),
            ToolError::InvalidTime { field, text } => ToolErrorV::InvalidTime {
                field: field@,
                text: text@,
            },
        }
    }
}

/// The message of an error. `rendered` is the text of the JSON value that the
/// error carries (the failure code, or the token reply), as serde_json prints it.
pub open spec fn error_message(e: ToolErrorV, rendered: Seq<char>) -> Seq<char> {
    match e {
        ToolErrorV::NotConfigured => "Feishu client not configured"@,
        ToolErrorV::Missing(what) => "missing "@ + what,
        ToolErrorV::Unsupported(action) => "unsupported action: "@ + action,
        ToolErrorV::ApiFailed { prefix, code, msg } => prefix + rendered + ", msg="@ + msg,
        ToolErrorV::AuthFailed(body) => "feishu auth failed: "@ + rendered,
        ToolErrorV::InvalidTime { field, text } => "invalid "@ + field + " (expected YYYY-MM-DDTHH:MM:SS): "@
            + text,
    }
}

impl ToolError {
    /// The error's message; `rendered` is serde_json's text of the JSON value
    /// that the error carries (its `Display` for a failure code, its `Debug`
    /// for a token reply). Errors that carry none ignore it.
    pub fn describe(&self, rendered: &str) -> (r: String)
        ensures
            r@ == error_message(self@, rendered@),
    {
        match self {
            ToolError::NotConfigured => "Feishu client not configured".to_owned(),
            ToolError::Missing(what) => {
                let mut s = "missing ".to_owned();
                s.append(what.as_str());
                s
            },
            ToolError::Unsupported(action) => {
                let mut s = "unsupported action: ".to_owned();
                s.append(action.as_str());
                s
            },
            ToolError::ApiFailed { prefix, code, msg } => {
                let mut s = prefix.clone();
                s.append(rendered);
                s.append(", msg=");
                s.append(msg.as_str());
                s
            },
            ToolError::AuthFailed(_) => {
                let mut s = "feishu auth failed: ".to_owned();
                s.append(rendered);
                s
            },
            ToolError::InvalidTime { field, text } => {
                let mut s = "invalid ".to_owned();
                s.append(field.as_str());
                s.append(" (expected YYYY-MM-DDTHH:MM:SS): ");
                s.append(text.as_str());
                s
            },
        }
    }
}

/// The model of what a tool returns.
pub open spec fn outcome<T: View>(r: Result<T, ToolError>) -> Result<T::V, ToolErrorV> {
    match r {
        Ok(v) => Ok(v@),
        Err(e) => Err(e@),
    }
}

#[derive(PartialEq, Eq, Structural, Clone, Copy, Debug)]
pub enum Method {
    Get,
    Post,
}

/// A call to the Feishu API as a tool plans it: a `GET` of a path below the
/// API's base URL, or a `POST` of a JSON body to such a path.
#[derive(Debug)]
pub enum ApiCall {
    Get { path: String },
    Post { path: String, body: Json },
}

pub enum ApiCallV {
    Get { path: Seq<char> },
    Post { path: Seq<char>, body: JsonV },
}

pub open spec fn opt_json_view(j: Option<Json>) -> Option<JsonV> {
    match j {
        Some(v) => Some(v@),
        None => None,
    }
}

impl View for ApiCall {
    type V = ApiCallV;

    open spec fn view(&self) -> ApiCallV {
        match self {
            ApiCall::Get { path } => ApiCallV::Get { path: path@ },
            ApiCall::Post { path, body } => ApiCallV::Post { path: path@, body: body@ },
        }
    }
}

/// A tool's plan: which of its operations runs, and the API call it makes.
pub struct Plan<O> {
    pub op: O,
    pub call: ApiCall,
}

impl<O: View> View for Plan<O> {
    type V = (O::V, ApiCallV);

    open spec fn view(&self) -> (O::V, ApiCallV) {
        (self.op@, self.call@)
    }
}

/// An HTTP request ready to be sent: method, full URL, the value of the
/// `Authorization` header if there is one, and the JSON body if there is one.
#[derive(Debug)]
pub struct HttpRequest {
    pub method: Method,
    pub url: String,
    pub authorization: Option<String>,
    pub body: Option<Json>,
}

pub struct HttpRequestV {
    pub method: Method,
    pub url: Seq<char>,
    pub authorization: Option<Seq<char>>,
    pub body: Option<JsonV>,
}

impl View for HttpRequest {
    type V = HttpRequestV;

    open spec fn view(&self) -> HttpRequestV {
        HttpRequestV {
            method: self.method,
            url: self.url@,
            authorization: match self.authorization {
                Some(a) => Some(a@),
                None => None,
            },
            body: opt_json_view(self.body),
        }
    }
}

/// The server's answer: the HTTP status code and the JSON body.
#[derive(Debug)]
pub struct HttpReply {
    pub status: u16,
    pub body: Json,
}

/// `body["msg"]` where it is a string, `"unknown"` otherwise.
pub open spec fn reply_msg(body: JsonV) -> Seq<char> {
    body.index("msg"@).str_or("unknown"@)
}

/// The error for a reply whose code is not 0.
pub open spec fn api_failure(prefix: Seq<char>, body: JsonV) -> ToolErrorV {
    ToolErrorV::ApiFailed { prefix, code: body.index("code"@), msg: reply_msg(body) }
}

/// The model of a list of strings.
pub open spec fn strings_view(s: Seq<String>) -> Seq<Seq<char>> {
    s.map_values(|x: String| x@)
}

/// A success report with the given text.
pub open spec fn success_v(output: Seq<char>) -> ToolResultV {
    ToolResultV { kind: ResultKind::Success, output }
}

/// A text result with the given text.
pub open spec fn text_v(output: Seq<char>) -> ToolResultV {
    ToolResultV { kind: ResultKind::Text, output }
}

/// A reply reports success where `body["code"]` is the integer 0.
pub open spec fn code_is_zero(body: JsonV) -> bool {
    body.index("code"@).as_i64() == Some(0int)
}

/// `value.max(1).min(max)`
pub open spec fn clamp_page_size(value: int, max: int) -> int {
    let at_least_one = if value < 1 {
        1
    } else {
        value
    };
    if at_least_one > max {
        max
    } else {
        at_least_one
    }
}

/// The page size that the arguments ask for: `args["page_size"]` where it is
/// an integer, else `default`, brought into `1..=max`.
pub open spec fn page_size_of(args: JsonV, default: int, max: int) -> int {
    let asked = match args.index("page_size"@).as_i64() {
        Some(v) => v,
        None => default,
    };
    clamp_page_size(asked, max)
}

/// Whatever the arguments hold, the page size they ask for lies in `1..=max`.
pub proof fn law_page_size_in_range(args: JsonV, default: int, max: int)
    requires
        1 <= max,
    ensures
        1 <= page_size_of(args, default, max) <= max,
{
}

/// The page size follows the argument: an integer `page_size` in `1..=max`
/// is taken as it is, a smaller one becomes 1 and a larger one `max`; where
/// there is no integer `page_size`, the default (in `1..=max`) is taken.
pub proof fn law_page_size_follows_argument(args: JsonV, default: int, max: int)
    requires
        1 <= default <= max,
    ensures
        match args.index("page_size"@).as_i64() {
            Some(p) => page_size_of(args, default, max) == if p < 1 {
                1
            } else if p > max {
                max
            } else {
                p
            },
            None => page_size_of(args, default, max) == default,
        },
{
}

/// One line per item, each made by `line`, whose model is `spec_line`.
pub(crate) fn lines_of<F: Fn(&Json) -> String>(
    items: &Vec<Json>,
    line: F,
    Ghost(spec_line): Ghost<spec_fn(JsonV) -> Seq<char>>,
) -> (r: Vec<String>)
    requires
        forall|j: &Json| #[trigger] line.requires((j,)),
        forall|j: &Json, s: String| #[trigger] line.ensures((j,), s) ==> s@ == spec_line(j@),
    ensures
        strings_view(r@) == items_view(items@).map_values(spec_line),
{
    let mut out: Vec<String> = Vec::new();
    let mut i: usize = 0;
    while i < items.len()
        invariant
            i <= items@.len(),
            forall|j: &Json| #[trigger] line.requires((j,)),
            forall|j: &Json, s: String| #[trigger] line.ensures((j,), s) ==> s@ == spec_line(j@),
            strings_view(out@) == items_view(items@).take(i as int).map_values(spec_line),
        decreases items@.len() - i,
    {
        let text = line(&items[i]);
        let ghost before = out@;
        out.push(text);
        proof {
            assert(strings_view(out@) =~= strings_view(before).push(text@));
            assert(items_view(items@).take(i + 1) =~= items_view(items@).take(i as int).push(
                items@[i as int]@,
            ));
            assert(strings_view(out@) =~= items_view(items@).take(i + 1).map_values(spec_line));
        }
        i = i + 1;
    }
    assert(items_view(items@).take(items@.len() as int) =~= items_view(items@));
    out
}

pub fn api_error(prefix: &str, body: &Json) -> (r: ToolError)
    ensures
        r@ == api_failure(prefix@, body@),
{
    let code = match body.get("code") {
        Some(c) => c.deep_clone(),
        None => Json::Null,
    };
    ToolError::ApiFailed {
        prefix: prefix.to_owned(),
        code,
        msg: str_field_or(body, "msg", "unknown"),
    }
}

/// `j[key]` where it is a string, `default` otherwise.
pub fn str_field_or(j: &Json, key: &str, default: &str) -> (r: String)
    ensures
        r@ == j@.index(key@).str_or(default@),
{
    match j.get(key) {
        Some(v) => match v.as_str() {
            Some(s) => s.clone(),
            None => default.to_owned(),
        },
        None => default.to_owned(),
    }
}

/// `j[key]` where it is a string.
pub fn str_field(j: &Json, key: &str) -> (r: Option<String>)
    ensures
        match r {
            Some(s) => j@.index(key@).as_str() == Some(s@),
            None => j@.index(key@).as_str() is None,
        },
{
    match j.get(key) {
        Some(v) => match v.as_str() {
            Some(s) => Some(s.clone()),
            None => None,
        },
        None => None,
    }
}

/// The string argument `key`, or the error that names it as missing.
pub fn required_str(args: &Json, key: &str, missing: &str) -> (r: Result<String, ToolError>)
    ensures
        match args@.index(key@).as_str() {
            Some(s) => r matches Ok(v) && v@ == s,
            None => r matches Err(e) && e@ == ToolErrorV::Missing(missing@),
        },
{
    match str_field(args, key) {
        Some(s) => Ok(s),
        None => Err(ToolError::Missing(missing.to_owned())),
    }
}

/// The reply's code is the integer 0.
pub fn reply_ok(body: &Json) -> (r: bool)
    ensures
        r == code_is_zero(body@),
{
    match body.get("code") {
        Some(c) => match c.as_i64() {
            Some(v) => v == 0,
            None => false,
        },
        None => false,
    }
}

/// The page size that `args` asks for, with `default` and the upper bound `max`.
pub fn page_size(args: &Json, default: i64, max: i64) -> (r: i64)
    requires
        1 <= max,
    ensures
        r == page_size_of(args@, default as int, max as int),
        1 <= r <= max,
{
    let asked = match args.get("page_size") {
        Some(v) => match v.as_i64() {
            Some(n) => n,
            None => default,
        },
        None => default,
    };
    let at_least_one = if asked < 1 {
        1
    } else {
        asked
    };
    if at_least_one > max {
        max
    } else {
        at_least_one
    }
}

/// The items of `j[a][b]` where it is an array, none otherwise.
pub fn nested_items<'a>(j: &'a Json, a: &str, b: &str) -> (r: Option<&'a Vec<Json>>)
    ensures
        match r {
            Some(items) => j@.index(a@).index(b@).items_or_empty() == items_view(items@),
            None => j@.index(a@).index(b@).items_or_empty() == Seq::<JsonV>::empty(),
        },
{
    match j.get(a) {
        Some(inner) => match inner.get(b) {
            Some(list) => list.as_array(),
            None => None,
        },
        None => None,
    }
}


/// The schema of one parameter: its JSON type and its description.
pub open spec fn schema_prop(ty: Seq<char>, desc: Seq<char>) -> JsonV {
    JsonV::Object(
        Seq::empty().push(("type"@, JsonV::Str(ty))).push(("description"@, JsonV::Str(desc))),
    )
}

/// A JSON array of the given strings.
pub open spec fn string_array(values: Seq<Seq<char>>) -> JsonV {
    JsonV::Array(values.map_values(|v: Seq<char>| JsonV::Str(v)))
}

/// The schema of a string parameter that takes one of `values`.
pub open spec fn schema_enum_prop(values: Seq<Seq<char>>, desc: Seq<char>) -> JsonV {
    JsonV::Object(
        Seq::empty().push(("type"@, JsonV::Str("string"@))).push(
            ("enum"@, string_array(values)),
        ).push(("description"@, JsonV::Str(desc))),
    )
}

/// The schema of a tool's arguments: an object with the given properties, of
/// which `required` must be present.
pub open spec fn object_schema(props: Seq<(Seq<char>, JsonV)>, required: Seq<Seq<char>>) -> JsonV {
    JsonV::Object(
        Seq::empty().push(("type"@, JsonV::Str("object"@))).push(
            ("properties"@, JsonV::Object(props)),
        ).push(("required"@, string_array(required))),
    )
}

pub open spec fn str_views(values: Seq<&str>) -> Seq<Seq<char>> {
    values.map_values(|v: &str| v@)
}

/// The parameter schema `{"type": ty, "description": desc}`.
pub fn schema_prop_json(ty: &str, desc: &str) -> (r: Json)
    ensures
        r@ == schema_prop(ty@, desc@),
{
    let mut e: Vec<(String, Json)> = Vec::new();
    assert(entries_view(e@) =~= Seq::empty());
    push_entry(&mut e, "type", Json::string(ty));
    push_entry(&mut e, "description", Json::string(desc));
    Json::object(e)
}

/// A JSON array of the given strings.
pub fn string_array_json(values: &Vec<&str>) -> (r: Json)
    ensures
        r@ == string_array(str_views(values@)),
{
    let mut items: Vec<Json> = Vec::new();
    let mut i: usize = 0;
    while i < values.len()
        invariant
            i <= values@.len(),
            items_view(items@) == str_views(values@).take(i as int).map_values(
                |v: Seq<char>| JsonV::Str(v),
            ),
        decreases values@.len() - i,
    {
        let ghost before = items_view(items@);
        push_item(&mut items, Json::string(values[i]));
        proof {
            assert(str_views(values@).take(i + 1) =~= str_views(values@).take(i as int).push(
                values@[i as int]@,
            ));
            assert(items_view(items@) =~= str_views(values@).take(i + 1).map_values(
                |v: Seq<char>| JsonV::Str(v),
            ));
        }
        i = i + 1;
    }
    assert(str_views(values@).take(values@.len() as int) =~= str_views(values@));
    Json::array(items)
}

/// The schema of a string parameter that takes one of `values`.
pub fn schema_enum_prop_json(values: &Vec<&str>, desc: &str) -> (r: Json)
    ensures
        r@ == schema_enum_prop(str_views(values@), desc@),
{
    let mut e: Vec<(String, Json)> = Vec::new();
    assert(entries_view(e@) =~= Seq::empty());
    push_entry(&mut e, "type", Json::string("string"));
    push_entry(&mut e, "enum", string_array_json(values));
    push_entry(&mut e, "description", Json::string(desc));
    Json::object(e)
}

/// The schema of a tool's arguments.
pub fn object_schema_json(props: Vec<(String, Json)>, required: &Vec<&str>) -> (r: Json)
    ensures
        r@ == object_schema(entries_view(props@), str_views(required@)),
{
    let mut e: Vec<(String, Json)> = Vec::new();
    assert(entries_view(e@) =~= Seq::empty());
    push_entry(&mut e, "type", Json::string("object"));
    push_entry(&mut e, "properties", Json::object(props));
    push_entry(&mut e, "required", string_array_json(required));
    Json::object(e)
}

} // verus!
