use feishu_tools::client::{FeishuClient, TokenCache, TokenStep, CN_BASE_URL, INT_BASE_URL};
use feishu_tools::json::Json;
use feishu_tools::tool::{ApiCall, Method, ToolError};

const SEC: i128 = 1_000_000_000;

fn from_value(v: &serde_json::Value) -> Json {
    match v {
        serde_json::Value::Null => Json::Null,
        serde_json::Value::Bool(b) => Json::Bool(*b),
        serde_json::Value::Number(n) => match n.as_i64() {
            Some(i) => Json::Int(i),
            None => Json::Number(n.to_string()),
        },
        serde_json::Value::String(s) => Json::Str(s.clone()),
        serde_json::Value::Array(items) => Json::Array(items.iter().map(from_value).collect()),
        serde_json::Value::Object(map) => Json::Object(
            map.iter().map(|(k, v)| (k.clone(), from_value(v))).collect(),
        ),
    }
}

fn to_value(j: &Json) -> serde_json::Value {
    match j {
        Json::Null => serde_json::Value::Null,
        Json::Bool(b) => serde_json::Value::Bool(*b),
        Json::Int(i) => serde_json::Value::from(*i),
        Json::Number(s) => serde_json::from_str(s).unwrap(),
        Json::Str(s) => serde_json::Value::String(s.clone()),
        Json::Array(items) => serde_json::Value::Array(items.iter().map(to_value).collect()),
        Json::Object(entries) => {
            let mut map = serde_json::Map::new();
            for (k, v) in entries {
                map.insert(k.clone(), to_value(v));
            }
            serde_json::Value::Object(map)
        }
    }
}

fn parse(text: &str) -> Json {
    from_value(&serde_json::from_str(text).unwrap())
}

fn value(text: &str) -> serde_json::Value {
    serde_json::from_str(text).unwrap()
}

fn message(e: &ToolError) -> String {
    let rendered = match e {
        ToolError::ApiFailed { code, .. } => to_value(code).to_string(),
        ToolError::AuthFailed(body) => format!("{:?}", to_value(body)),
        _ => String::new(),
    };
    e.describe(&rendered)
}

fn client() -> std::sync::Arc<FeishuClient> {
    FeishuClient::new("cli_app".to_string(), "s3cret".to_string(), true)
}

fn fetch_request(step: TokenStep) -> feishu_tools::tool::HttpRequest {
    match step {
        TokenStep::Fetch(req) => req,
        TokenStep::Cached(t) => panic!("expected a fetch, got cached token {}", t),
    }
}

#[test]
fn new_picks_feishu_or_lark_base_url() {
    assert_eq!(CN_BASE_URL, "https://open.feishu.cn/open-apis");
    assert_eq!(INT_BASE_URL, "https://open.larksuite.com/open-apis");
    let cn = FeishuClient::new("a".to_string(), "b".to_string(), true);
    let req = cn.get("/x", "t");
    assert_eq!(req.url, "https://open.feishu.cn/open-apis/x");
    let intl = FeishuClient::new("a".to_string(), "b".to_string(), false);
    let req = intl.get("/x", "t");
    assert_eq!(req.url, "https://open.larksuite.com/open-apis/x");
}

#[test]
fn empty_cache_fetches_a_token_with_the_app_credentials() {
    let c = client();
    let cache = TokenCache::new(0);
    let req = fetch_request(c.get_tenant_token(&cache, 0));
    assert!(req.method == Method::Post);
    assert_eq!(
        req.url,
        "https://open.feishu.cn/open-apis/auth/v3/tenant_access_token/internal"
    );
    assert!(req.authorization.is_none());
    assert_eq!(
        to_value(req.body.as_ref().unwrap()),
        value(r#"{"app_id": "cli_app", "app_secret": "s3cret"}"#)
    );
}

#[test]
fn stored_token_is_reused_until_expiry_less_margin() {
    let c = client();
    let mut cache = TokenCache::new(0);
    let now = 1_000 * SEC;
    let reply = parse(r#"{"code": 0, "tenant_access_token": "t-abc", "expire": 7200}"#);
    let token = c.store_tenant_token(&mut cache, &reply, now).unwrap();
    assert_eq!(token, "t-abc");
    let expiry = now + 7200 * SEC - 300 * SEC;
    match c.get_tenant_token(&cache, now) {
        TokenStep::Cached(t) => assert_eq!(t, "t-abc"),
        TokenStep::Fetch(_) => panic!("token should be cached"),
    }
    match c.get_tenant_token(&cache, expiry - 1) {
        TokenStep::Cached(t) => assert_eq!(t, "t-abc"),
        TokenStep::Fetch(_) => panic!("token should still be cached"),
    }
    let req = fetch_request(c.get_tenant_token(&cache, expiry));
    assert!(req.url.ends_with("/auth/v3/tenant_access_token/internal"));
}

#[test]
fn missing_expire_defaults_to_two_hours() {
    let c = client();
    let mut cache = TokenCache::new(0);
    let reply = parse(r#"{"tenant_access_token": "t-1"}"#);
    assert_eq!(c.store_tenant_token(&mut cache, &reply, 0).unwrap(), "t-1");
    match c.get_tenant_token(&cache, 6899 * SEC) {
        TokenStep::Cached(t) => assert_eq!(t, "t-1"),
        TokenStep::Fetch(_) => panic!("token should be cached"),
    }
    fetch_request(c.get_tenant_token(&cache, 6900 * SEC));
}

#[test]
fn short_expire_is_raised_to_a_minute_and_never_reused() {
    let c = client();
    let mut cache = TokenCache::new(0);
    let now = 5_000 * SEC;
    let reply = parse(r#"{"tenant_access_token": "t-short", "expire": 10}"#);
    assert_eq!(c.store_tenant_token(&mut cache, &reply, now).unwrap(), "t-short");
    // 60 s lifetime less the 300 s margin lies before `now`
    fetch_request(c.get_tenant_token(&cache, now));
    // an expiry of 60 - 300 = -240 s from now: the cache was valid before it was filled
    match c.get_tenant_token(&cache, now - 241 * SEC) {
        TokenStep::Cached(t) => assert_eq!(t, "t-short"),
        TokenStep::Fetch(_) => panic!("the expiry lies at now - 240 s"),
    }
}

#[test]
fn empty_token_is_not_reused() {
    let c = client();
    let mut cache = TokenCache::new(0);
    let reply = parse(r#"{"tenant_access_token": "", "expire": 7200}"#);
    assert_eq!(c.store_tenant_token(&mut cache, &reply, 0).unwrap(), "");
    fetch_request(c.get_tenant_token(&cache, 1));
}

#[test]
fn reply_without_token_is_auth_failure_and_keeps_cache() {
    let c = client();
    let mut cache = TokenCache::new(0);
    let good = parse(r#"{"tenant_access_token": "t-good", "expire": 7200}"#);
    c.store_tenant_token(&mut cache, &good, 0).unwrap();
    let bad = parse(r#"{"code": 10003, "msg": "invalid param"}"#);
    let err = c.store_tenant_token(&mut cache, &bad, 10 * SEC).unwrap_err();
    match &err {
        ToolError::AuthFailed(body) => {
            assert_eq!(to_value(body), value(r#"{"code": 10003, "msg": "invalid param"}"#))
        }
        _ => panic!("expected an auth failure"),
    }
    assert_eq!(
        message(&err),
        r#"feishu auth failed: Object {"code": Number(10003), "msg": String("invalid param")}"#
    );
    match c.get_tenant_token(&cache, 10 * SEC) {
        TokenStep::Cached(t) => assert_eq!(t, "t-good"),
        TokenStep::Fetch(_) => panic!("the old token should be kept"),
    }
}

#[test]
fn token_that_is_not_a_string_is_auth_failure() {
    let c = client();
    let mut cache = TokenCache::new(0);
    let reply = parse(r#"{"tenant_access_token": 12}"#);
    assert!(matches!(
        c.store_tenant_token(&mut cache, &reply, 0),
        Err(ToolError::AuthFailed(_))
    ));
}

#[test]
fn get_and_post_carry_bearer_token() {
    let c = client();
    let req = c.get("/calendar/v4/calendars?page_size=50", "t-xyz");
    assert!(req.method == Method::Get);
    assert_eq!(
        req.url,
        "https://open.feishu.cn/open-apis/calendar/v4/calendars?page_size=50"
    );
    assert_eq!(req.authorization.as_deref(), Some("Bearer t-xyz"));
    assert!(req.body.is_none());
    let req = c.post("/im/v1/messages", parse(r#"{"a": 1}"#), "t-xyz");
    assert!(req.method == Method::Post);
    assert_eq!(req.url, "https://open.feishu.cn/open-apis/im/v1/messages");
    assert_eq!(req.authorization.as_deref(), Some("Bearer t-xyz"));
    assert_eq!(to_value(req.body.as_ref().unwrap()), value(r#"{"a": 1}"#));
}

#[test]
fn authorize_turns_a_planned_call_into_a_request() {
    let c = client();
    let req = c.authorize(ApiCall::Get { path: "/p".to_string() }, "tok");
    assert!(req.method == Method::Get);
    assert_eq!(req.url, "https://open.feishu.cn/open-apis/p");
    let req = c.authorize(
        ApiCall::Post { path: "/q".to_string(), body: Json::Bool(true) },
        "tok",
    );
    assert!(req.method == Method::Post);
    assert_eq!(req.authorization.as_deref(), Some("Bearer tok"));
    assert_eq!(to_value(req.body.as_ref().unwrap()), value("true"));
}

#[test]
fn error_messages() {
    assert_eq!(message(&ToolError::NotConfigured), "Feishu client not configured");
    assert_eq!(message(&ToolError::Missing("action".to_string())), "missing action");
    assert_eq!(
        message(&ToolError::Unsupported("fly".to_string())),
        "unsupported action: fly"
    );
    let e = ToolError::ApiFailed {
        prefix: "search failed: code=".to_string(),
        code: Json::Str("x".to_string()),
        msg: "bad".to_string(),
    };
    assert_eq!(message(&e), r#"search failed: code="x", msg=bad"#);
}

#[test]
fn requests_stay_on_the_api_host() {
    let c = client();
    for path in ["@evil.example/x", "//evil.example", "?a#b", "/../../x"] {
        let req = c.get(path, "tok");
        assert!(req.url.starts_with("https://open.feishu.cn/"));
        let req = c.post(path, Json::Null, "tok");
        assert!(req.url.starts_with("https://open.feishu.cn/"));
    }
    let lark = FeishuClient::new("a".to_string(), "b".to_string(), false);
    assert!(lark.get("@x", "t").url.starts_with("https://open.larksuite.com/"));
}

#[test]
fn secret_only_in_token_request_body() {
    let c = FeishuClient::new("app".to_string(), "TOPSECRET".to_string(), true);
    let req = c.authorize(
        ApiCall::Post { path: "/im/v1/messages".to_string(), body: parse(r#"{"k": "v"}"#) },
        "tok",
    );
    let text = format!("{:?}", req);
    assert!(!text.contains("TOPSECRET"));
    let get = c.get("/x", "tok");
    assert!(!format!("{:?}", get).contains("TOPSECRET"));
    let token_req = fetch_request(c.get_tenant_token(&TokenCache::new(0), 0));
    assert!(!token_req.url.contains("TOPSECRET"));
    assert!(token_req.authorization.is_none());
    assert_eq!(to_value(token_req.body.as_ref().unwrap())["app_secret"], value(r#""TOPSECRET""#));
}
