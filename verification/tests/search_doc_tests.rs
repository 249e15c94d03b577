use feishu_tools::client::FeishuClient;
use feishu_tools::json::Json;
use feishu_tools::search_doc::{FeishuSearchDocTool, SearchOp};
use feishu_tools::tool::{ApiCall, HttpReply, ResultKind, ToolError};

fn from_value(v: &serde_json::Value) -> Json {
    match v {
        serde_json::Value::Null => Json::Null,
        serde_json::Value::Bool(b) => Json::Bool(*b),
        serde_json::Value::Number(n) => match n.as_i64() {
            Some(i) => Json::Int(i),
            None => Json::Number(n.to_string()),
        },
        serde_json::Value::String(s) => Json::Str(s.clone()),
        serde_json::Value::Array(items) => Json::Array(items.iter().map(from_value).collect()),
        serde_json::Value::Object(map) => Json::Object(
            map.iter().map(|(k, v)| (k.clone(), from_value(v))).collect(),
        ),
    }
}

fn to_value(j: &Json) -> serde_json::Value {
    match j {
        Json::Null => serde_json::Value::Null,
        Json::Bool(b) => serde_json::Value::Bool(*b),
        Json::Int(i) => serde_json::Value::from(*i),
        Json::Number(s) => serde_json::from_str(s).unwrap(),
        Json::Str(s) => serde_json::Value::String(s.clone()),
        Json::Array(items) => serde_json::Value::Array(items.iter().map(to_value).collect()),
        Json::Object(entries) => {
            let mut map = serde_json::Map::new();
            for (k, v) in entries {
                map.insert(k.clone(), to_value(v));
            }
            serde_json::Value::Object(map)
        }
    }
}

fn parse(text: &str) -> Json {
    from_value(&serde_json::from_str(text).unwrap())
}

fn value(text: &str) -> serde_json::Value {
    serde_json::from_str(text).unwrap()
}

fn message(e: &ToolError) -> String {
    let rendered = match e {
        ToolError::ApiFailed { code, .. } => to_value(code).to_string(),
        ToolError::AuthFailed(body) => format!("{:?}", to_value(body)),
        _ => String::new(),
    };
    e.describe(&rendered)
}

fn tool() -> FeishuSearchDocTool {
    FeishuSearchDocTool::new(Some(FeishuClient::new("a".to_string(), "b".to_string(), false)))
}

fn get_path(call: &ApiCall) -> String {
    match call {
        ApiCall::Get { path } => path.clone(),
        ApiCall::Post { .. } => panic!("expected a GET"),
    }
}

#[test]
fn search_doc_name_description_schema() {
    let t = tool();
    assert_eq!(t.name(), "feishu_search_doc");
    assert_eq!(
        t.description(),
        "Search for Feishu/Lark documents by title or keyword, or read document content by document token."
    );
    let expected = value(
        r#"{
            "type": "object",
            "properties": {
                "action": {
                    "type": "string",
                    "enum": ["search", "read"],
                    "description": "search: find documents by keyword. read: get document content by token"
                },
                "query": {"type": "string", "description": "Search keyword (required for search action)"},
                "document_token": {"type": "string", "description": "Document token to read (required for read action)"},
                "page_size": {"type": "integer", "description": "Max results for search (default 10)"}
            },
            "required": ["action"]
        }"#,
    );
    assert_eq!(to_value(&t.parameters_schema()), expected);
}

#[test]
fn search_doc_without_client() {
    let err = FeishuSearchDocTool::new(None)
        .execute(&parse(r#"{"action": "search", "query": "x"}"#))
        .err()
        .unwrap();
    assert!(matches!(err, ToolError::NotConfigured));
}

#[test]
fn search_doc_missing_and_unsupported() {
    let t = tool();
    assert_eq!(message(&t.execute(&parse("{}")).err().unwrap()), "missing action");
    assert_eq!(
        message(&t.execute(&parse(r#"{"action": "list"}"#)).err().unwrap()),
        "unsupported action: list"
    );
    assert_eq!(
        message(&t.execute(&parse(r#"{"action": "search"}"#)).err().unwrap()),
        "missing query for search action"
    );
    assert_eq!(
        message(&t.execute(&parse(r#"{"action": "read"}"#)).err().unwrap()),
        "missing document_token for read action"
    );
}

#[test]
fn search_plan_encodes_query() {
    let plan = tool()
        .execute(&parse(r#"{"action": "search", "query": "Q3 plan&more=1"}"#))
        .ok()
        .unwrap();
    assert_eq!(
        get_path(&plan.call),
        "/wiki/v2/search?query=Q3%20plan%26more%3D1&page_size=10"
    );
    match &plan.op {
        SearchOp::Search { query } => assert_eq!(query, "Q3 plan&more=1"),
        SearchOp::Read => panic!("expected a search"),
    }
}

#[test]
fn search_plan_encodes_unicode_and_keeps_unreserved() {
    let plan = tool()
        .execute(&parse(r#"{"action": "search", "query": "周报 a-b_c.d~e", "page_size": 80}"#))
        .ok()
        .unwrap();
    assert_eq!(
        get_path(&plan.call),
        "/wiki/v2/search?query=%E5%91%A8%E6%8A%A5%20a-b_c.d~e&page_size=50"
    );
    let plan = tool()
        .execute(&parse(r#"{"action": "search", "query": "x", "page_size": 0}"#))
        .ok()
        .unwrap();
    assert_eq!(get_path(&plan.call), "/wiki/v2/search?query=x&page_size=1");
}

#[test]
fn read_plan() {
    let plan = tool()
        .execute(&parse(r#"{"action": "read", "document_token": "doxcn123"}"#))
        .ok()
        .unwrap();
    assert!(matches!(plan.op, SearchOp::Read));
    assert_eq!(get_path(&plan.call), "/docx/v1/documents/doxcn123/raw_content");
}

#[test]
fn search_reply_lists_documents() {
    let t = tool();
    let r = t
        .search_docs(
            "plan",
            &parse(
                r#"{"code": 0, "data": {"items": [
                    {"title": "Plan", "obj_token": "tok1", "url": "https://x/doc1"},
                    {"obj_token": "tok2"}
                ]}}"#,
            ),
        )
        .ok()
        .unwrap();
    assert!(r.kind == ResultKind::Text);
    assert_eq!(
        r.output,
        "Found 2 documents for 'plan':\n- [Plan](https://x/doc1) token: tok1\n- [untitled]() token: tok2"
    );
    let r = t.search_docs("zzz", &parse(r#"{"code": 0, "data": {"items": []}}"#)).ok().unwrap();
    assert_eq!(r.output, "No documents found for: zzz");
    let err = t.search_docs("q", &parse(r#"{"code": 131005, "msg": "not found"}"#)).err().unwrap();
    assert_eq!(message(&err), "search failed: code=131005, msg=not found");
}

#[test]
fn search_reply_through_finish() {
    let t = tool();
    let plan = t.execute(&parse(r#"{"action": "search", "query": "kw"}"#)).ok().unwrap();
    let reply = HttpReply { status: 200, body: parse(r#"{"code": 0, "data": {}}"#) };
    let r = t.finish(&plan.op, &reply).ok().unwrap();
    assert_eq!(r.output, "No documents found for: kw");
}

#[test]
fn read_reply() {
    let t = tool();
    let r = t
        .read_doc(&parse(r#"{"code": 0, "data": {"content": "Hello\nWorld"}}"#))
        .ok()
        .unwrap();
    assert!(r.kind == ResultKind::Text);
    assert_eq!(r.output, "Document content:\n\nHello\nWorld");
    let r = t.read_doc(&parse(r#"{"code": 0}"#)).ok().unwrap();
    assert_eq!(r.output, "Document content:\n\n(empty document)");
    let err = t.read_doc(&parse(r#"{"code": 1770002, "msg": "not exist"}"#)).err().unwrap();
    assert_eq!(message(&err), "read doc failed: code=1770002, msg=not exist");
    let r = t
        .finish(&SearchOp::Read, &HttpReply { status: 200, body: parse(r#"{"code": 0, "data": {"content": "c"}}"#) })
        .ok()
        .unwrap();
    assert_eq!(r.output, "Document content:\n\nc");
}

#[test]
fn encoded_query_decodes_to_the_query() {
    for q in ["Q3 plan&more=1", "周报 #1 + 100%?", "a/b\\c@d", ""] {
        let mut map = serde_json::Map::new();
        map.insert("action".to_string(), serde_json::Value::String("search".to_string()));
        map.insert("query".to_string(), serde_json::Value::String(q.to_string()));
        let args = from_value(&serde_json::Value::Object(map));
        let plan = tool().execute(&args).ok().unwrap();
        let path = get_path(&plan.call);
        let encoded = path
            .strip_prefix("/wiki/v2/search?query=")
            .unwrap()
            .strip_suffix("&page_size=10")
            .unwrap();
        assert!(!encoded.contains('&') && !encoded.contains('=') && !encoded.contains('#'));
        assert_eq!(urlencoding::decode(encoded).unwrap(), q);
    }
}
