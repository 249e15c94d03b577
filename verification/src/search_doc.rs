use std::sync::Arc;
use vstd::prelude::*;

use crate::client::{FeishuClient, FeishuClientV};
use crate::json::{Json, JsonV, entries_view, push_entry};
use crate::text::{decimal, join, join_strings, push_decimal};
use crate::tool::{
    ApiCall, ApiCallV, HttpReply, Plan, ToolError, ToolErrorV, ToolResult, ToolResultV,
    api_error, api_failure, lines_of, code_is_zero, nested_items, object_schema, object_schema_json,
    outcome, page_size, page_size_of, reply_ok, required_str, schema_enum_prop,
    schema_enum_prop_json, schema_prop, schema_prop_json, str_field_or, str_views,
    text_v,
};
use crate::url::{url_encode, url_encoded};

verus! {

/// The operations of the document tool; a search keeps its query, which the
/// reply's listing repeats.
#[derive(Debug)]
pub enum SearchOp {
    Search { query: String },
    Read,
}

pub enum SearchOpV {
    Search { query: Seq<char> },
    Read,
}

impl View for SearchOp {
    type V = SearchOpV;

    open spec fn view(&self) -> SearchOpV {
        match self {
            SearchOp::Search { query } => SearchOpV::Search { query: query@ },
            SearchOp::Read => SearchOpV::Read,
        }
    }
}

/// Searches documents by keyword and reads a document's content.
pub struct FeishuSearchDocTool {
    client: Option<Arc<FeishuClient>>,
}

/// The schema of the document tool's arguments.
pub open spec fn search_doc_schema() -> JsonV {
    object_schema(
        Seq::empty().push(
            (
                "action"@,
                schema_enum_prop(
                    Seq::empty().push("search"@).push("read"@),
                    "search: find documents by keyword. read: get document content by token"@,
                ),
            ),
        ).push(
            ("query"@, schema_prop("string"@, "Search keyword (required for search action)"@)),
        ).push(
            (
                "document_token"@,
                schema_prop("string"@, "Document token to read (required for read action)"@),
            ),
        ).push(
            ("page_size"@, schema_prop("integer"@, "Max results for search (default 10)"@)),
        ),
        Seq::empty().push("action"@),
    )
}

/// The path of a search for `query`.
pub open spec fn search_path(args: JsonV, query: Seq<char>) -> Seq<char> {
    "/wiki/v2/search?query="@ + url_encoded(query) + "&page_size="@ + decimal(
        page_size_of(args, 10, 50) as nat,
    )
}

/// What `execute` plans for `args`, where the tool has a client.
pub open spec fn search_doc_plan(args: JsonV) -> Result<(SearchOpV, ApiCallV), ToolErrorV> {
    match args.index("action"@).as_str() {
        None => Err(ToolErrorV::Missing("action"@)),
        Some(action) => if action == "search"@ {
            match args.index("query"@).as_str() {
                None => Err(ToolErrorV::Missing("query for search action"@)),
                Some(q) => Ok(
                    (SearchOpV::Search { query: q }, ApiCallV::Get { path: search_path(args, q) }),
                ),
            }
        } else if action == "read"@ {
            match args.index("document_token"@).as_str() {
                None => Err(ToolErrorV::Missing("document_token for read action"@)),
                Some(token) => Ok(
                    (
                        SearchOpV::Read,
                        ApiCallV::Get { path: "/docx/v1/documents/"@ + token + "/raw_content"@ },
                    ),
                ),
            }
        } else {
            Err(ToolErrorV::Unsupported(action))
        },
    }
}

/// The line that lists one document.
pub open spec fn doc_line(item: JsonV) -> Seq<char> {
    "- ["@ + item.index("title"@).str_or("untitled"@) + "]("@ + item.index("url"@).str_or(""@)
        + ") token: "@ + item.index("obj_token"@).str_or(""@)
}

/// What the tool makes of the reply to a search for `query`.
pub open spec fn search_docs_reply(query: Seq<char>, body: JsonV) -> Result<
    ToolResultV,
    ToolErrorV,
> {
    if !code_is_zero(body) {
        Err(api_failure("search failed: code="@, body))
    } else {
        let items = body.index("data"@).index("items"@).items_or_empty();
        if items.len() == 0 {
            Ok(text_v("No documents found for: "@ + query))
        } else {
            Ok(
                text_v(
                    "Found "@ + decimal(items.len()) + " documents for '"@ + query + "':\n"@
                        + join(items.map_values(|d: JsonV| doc_line(d)), "\n"@),
                ),
            )
        }
    }
}

/// What the tool makes of the reply to a document read.
pub open spec fn read_doc_reply(body: JsonV) -> Result<ToolResultV, ToolErrorV> {
    if !code_is_zero(body) {
        Err(api_failure("read doc failed: code="@, body))
    } else {
        Ok(
            text_v(
                "Document content:\n\n"@ + body.index("data"@).index("content"@).str_or(
                    "(empty document)"@,
                ),
            ),
        )
    }
}

/// What the tool makes of the reply to the operation `op`.
pub open spec fn search_doc_reply(op: SearchOpV, body: JsonV) -> Result<ToolResultV, ToolErrorV> {
    match op {
        SearchOpV::Search { query } => search_docs_reply(query, body),
        SearchOpV::Read => read_doc_reply(body),
    }
}

/// Every reply to the document tool is a failure exactly when its code is not
/// the integer 0, and the failure then carries the reply's code and message.
pub proof fn law_search_doc_reply_fails_iff_code_nonzero(op: SearchOpV, body: JsonV)
    ensures
        search_doc_reply(op, body) is Err <==> !code_is_zero(body),
        search_doc_reply(op, body) matches Err(e) ==> e matches ToolErrorV::ApiFailed {
            prefix,
            code,
            msg,
        } && code == body.index("code"@) && msg == body.index("msg"@).str_or("unknown"@),
{
}

/// The search a plan sends carries the query as one percent-encoded
/// parameter: the path is the search endpoint, the encoding of the query,
/// which holds no `&`, `=`, `#`, `?`, `+` or space, and then the page size.
pub proof fn law_search_query_stays_one_parameter(args: JsonV)
    requires
        search_doc_plan(args) matches Ok((SearchOpV::Search { query }, _)),
    ensures
        ({
            let (op, call) = search_doc_plan(args)->Ok_0;
            let query = op->query;
            &&& call == ApiCallV::Get { path: search_path(args, query) }
            &&& forall|i: int|
                0 <= i < url_encoded(query).len() ==> #[trigger] url_encoded(query)[i] != '&'
                    && url_encoded(query)[i] != '=' && url_encoded(query)[i] != '#'
        }),
{
    let (op, call) = search_doc_plan(args)->Ok_0;
    crate::url::law_url_encoded_stays_one_parameter(op->query);
}

/// A search asks for the percent-encoded query with the page size the
/// arguments ask for: an integer `page_size` in `1..=50` as it is, a smaller
/// one as 1, a larger one as 50, and 10 where there is no integer `page_size`.
pub proof fn law_search_path_page_size(args: JsonV)
    requires
        args.index("action"@).as_str() == Some("search"@),
        args.index("query"@).as_str() is Some,
    ensures
        ({
            let q = args.index("query"@).as_str()->0;
            let size = match args.index("page_size"@).as_i64() {
                Some(p) => if p < 1 {
                    1
                } else if p > 50 {
                    50
                } else {
                    p
                },
                None => 10,
            };
            search_doc_plan(args) == Ok::<(SearchOpV, ApiCallV), ToolErrorV>(
                (
                    SearchOpV::Search { query: q },
                    ApiCallV::Get {
                        path: "/wiki/v2/search?query="@ + url_encoded(q) + "&page_size="@
                            + decimal(size as nat),
                    },
                ),
            )
        }),
{
}

/// The listing of found documents has one line per document, in the reply's
/// order: `- [<title>](<url>) token: <token>`, with `untitled` and empty
/// texts where a field is no string, under `Found <n> documents for
/// '<query>':`; with none found it names the query, and a code other than 0
/// is an error.
pub proof fn law_search_lists_every_document(query: Seq<char>, body: JsonV)
    ensures
        ({
            let items = body.index("data"@).index("items"@).items_or_empty();
            let lines = Seq::new(
                items.len(),
                |i: int|
                    "- ["@ + items[i].index("title"@).str_or("untitled"@) + "]("@
                        + items[i].index("url"@).str_or(""@) + ") token: "@
                        + items[i].index("obj_token"@).str_or(""@),
            );
            search_docs_reply(query, body) == if !code_is_zero(body) {
                Err(api_failure("search failed: code="@, body))
            } else if items.len() == 0 {
                Ok(text_v("No documents found for: "@ + query))
            } else {
                Ok(
                    text_v(
                        "Found "@ + decimal(items.len()) + " documents for '"@ + query + "':\n"@
                            + join(lines, "\n"@),
                    ),
                )
            }
        }),
{
    let items = body.index("data"@).index("items"@).items_or_empty();
    let lines = Seq::new(
        items.len(),
        |i: int|
            "- ["@ + items[i].index("title"@).str_or("untitled"@) + "]("@ + items[i].index(
                "url"@,
            ).str_or(""@) + ") token: "@ + items[i].index("obj_token"@).str_or(""@),
    );
    assert(items.map_values(|d: JsonV| doc_line(d)) =~= lines);
}

fn doc_line_text(item: &Json) -> (r: String)
    ensures
        r@ == doc_line(item@),
{
    let mut s = "- [".to_owned();
    s.append(str_field_or(item, "title", "untitled").as_str());
    s.append("](");
    s.append(str_field_or(item, "url", "").as_str());
    s.append(") token: ");
    s.append(str_field_or(item, "obj_token", "").as_str());
    s
}


impl FeishuSearchDocTool {
    /// The client that the tool calls the API with, where it has one.
    pub closed spec fn client_view(&self) -> Option<FeishuClientV> {
        match self.client {
            Some(c) => Some(c@),
            None => None,
        }
    }

    pub fn new(client: Option<Arc<FeishuClient>>) -> (r: Self)
        ensures
            r.client_view() == match client {
                Some(c) => Some(c@),
                None => None::<FeishuClientV>,
            },
    {
        FeishuSearchDocTool { client }
    }

    pub fn name(&self) -> (r: &'static str)
        ensures
            r@ == "feishu_search_doc"@,
    {
        "feishu_search_doc"
    }

    pub fn description(&self) -> (r: &'static str)
        ensures
            r@
                == "Search for Feishu/Lark documents by title or keyword, or read document content by document token."@,
    {
        "Search for Feishu/Lark documents by title or keyword, or read document content by document token."
    }

    /// The JSON schema of the tool's arguments.
    pub fn parameters_schema(&self) -> (r: Json)
        ensures
            r@ == search_doc_schema(),
    {
        let mut actions: Vec<&str> = Vec::new();
        actions.push("search");
        actions.push("read");
        let mut props: Vec<(String, Json)> = Vec::new();
        assert(entries_view(props@) =~= Seq::empty());
        push_entry(
            &mut props,
            "action",
            schema_enum_prop_json(
                &actions,
                "search: find documents by keyword. read: get document content by token",
            ),
        );
        push_entry(
            &mut props,
            "query",
            schema_prop_json("string", "Search keyword (required for search action)"),
        );
        push_entry(
            &mut props,
            "document_token",
            schema_prop_json("string", "Document token to read (required for read action)"),
        );
        push_entry(
            &mut props,
            "page_size",
            schema_prop_json("integer", "Max results for search (default 10)"),
        );
        let mut required: Vec<&str> = Vec::new();
        required.push("action");
        proof {
            assert(str_views(actions@) =~= Seq::empty().push("search"@).push("read"@));
            assert(str_views(required@) =~= Seq::empty().push("action"@));
        }
        object_schema_json(props, &required)
    }

    /// Plans a run for `args`: which operation runs and the API call it makes.
    pub fn execute(&self, args: &Json) -> (r: Result<Plan<SearchOp>, ToolError>)
        ensures
            outcome(r) == if self.client_view() is None {
                Err(ToolErrorV::NotConfigured)
            } else {
                search_doc_plan(args@)
            },
    {
        if self.client.is_none() {
            return Err(ToolError::NotConfigured);
        }
        let action = required_str(args, "action", "action")?;
        if action == "search".to_owned() {
            let query = required_str(args, "query", "query for search action")?;
            let size = page_size(args, 10, 50);
            let mut path = "/wiki/v2/search?query=".to_owned();
            path.append(url_encode(query.as_str()).as_str());
            path.append("&page_size=");
            push_decimal(&mut path, size as u64);
            Ok(Plan { op: SearchOp::Search { query }, call: ApiCall::Get { path } })
        } else if action == "read".to_owned() {
            let token = required_str(args, "document_token", "document_token for read action")?;
            let mut path = "/docx/v1/documents/".to_owned();
            path.append(token.as_str());
            path.append("/raw_content");
            Ok(Plan { op: SearchOp::Read, call: ApiCall::Get { path } })
        } else {
            Err(ToolError::Unsupported(action))
        }
    }

    /// What the tool makes of the reply to a search for `query`.
    pub fn search_docs(&self, query: &str, body: &Json) -> (r: Result<ToolResult, ToolError>)
        ensures
            outcome(r) == search_docs_reply(query@, body@),
    {
        if !reply_ok(body) {
            return Err(api_error("search failed: code=", body));
        }
        let items = match nested_items(body, "data", "items") {
            Some(items) => items,
            None => {
                let mut out = "No documents found for: ".to_owned();
                out.append(query);
                return Ok(ToolResult::text(out));
            },
        };
        if items.len() == 0 {
            let mut out = "No documents found for: ".to_owned();
            out.append(query);
            return Ok(ToolResult::text(out));
        }
        let lines = lines_of(items, doc_line_text, Ghost(|d: JsonV| doc_line(d)));
        let mut out = "Found ".to_owned();
        push_decimal(&mut out, items.len() as u64);
        out.append(" documents for '");
        out.append(query);
        out.append("':\n");
        out.append(join_strings(&lines, "\n").as_str());
        Ok(ToolResult::text(out))
    }

    /// What the tool makes of the reply to a document read.
    pub fn read_doc(&self, body: &Json) -> (r: Result<ToolResult, ToolError>)
        ensures
            outcome(r) == read_doc_reply(body@),
    {
        if !reply_ok(body) {
            return Err(api_error("read doc failed: code=", body));
        }
        let content = match body.get("data") {
            Some(data) => str_field_or(data, "content", "(empty document)"),
            None => "(empty document)".to_owned(),
        };
        let mut out = "Document content:\n\n".to_owned();
        out.append(content.as_str());
        Ok(ToolResult::text(out))
    }

    /// What the tool makes of the reply to the operation `op`.
    pub fn finish(&self, op: &SearchOp, reply: &HttpReply) -> (r: Result<ToolResult, ToolError>)
        ensures
            outcome(r) == search_doc_reply(op@, reply.body@),
    {
        match op {
            SearchOp::Search { query } => self.search_docs(query.as_str(), &reply.body),
            SearchOp::Read => self.read_doc(&reply.body),
        }
    }
}

} // verus!
