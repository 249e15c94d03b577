use std::sync::Arc;
use vstd::prelude::*;

use crate::json::{Json, JsonV};
use crate::tool::{
    ApiCall, ApiCallV, HttpRequest, HttpRequestV, Method, ToolError, ToolErrorV,
};

verus! {

pub const CN_BASE_URL: &'static str = "https://open.feishu.cn/open-apis";

pub const INT_BASE_URL: &'static str = "https://open.larksuite.com/open-apis";

/// Nanoseconds in a second; the clock that the token cache reads counts nanoseconds.
pub const NANOS_PER_SEC: i128 = 1_000_000_000i128;

/// A cached token is given up this long (300 seconds) before the server says it expires.
pub const TOKEN_REFRESH_MARGIN: i128 = 300_000_000_000i128;

/// The largest clock reading the token cache accepts (nanoseconds).
pub const MAX_CLOCK: i128 = 18_446_744_073_709_551_615i128;

/// The credentials of a Feishu (China) or Lark (international) app, and the
/// base URL of the API that it talks to.
pub struct FeishuClient {
    app_id: String,
    app_secret: String,
    base_url: &'static str,
}

pub struct FeishuClientV {
    pub app_id: Seq<char>,
    pub app_secret: Seq<char>,
    pub base_url: Seq<char>,
}

impl View for FeishuClient {
    type V = FeishuClientV;

    closed spec fn view(&self) -> FeishuClientV {
        FeishuClientV { app_id: self.app_id@, app_secret: self.app_secret@, base_url: self.base_url@ }
    }
}

/// The tenant token that the client holds, and the clock reading (in
/// nanoseconds) from which on it is no longer used.
pub struct TokenCache {
    token: String,
    expires_at: i128,
}

pub struct TokenCacheV {
    pub token: Seq<char>,
    pub expires_at: int,
}

impl View for TokenCache {
    type V = TokenCacheV;

    closed spec fn view(&self) -> TokenCacheV {
        TokenCacheV { token: self.token@, expires_at: self.expires_at as int }
    }
}

/// What the client does for a token: hand out the cached one, or fetch one.
#[derive(Debug)]
pub enum TokenStep {
    Cached(String),
    Fetch(HttpRequest),
}

pub enum TokenStepV {
    Cached(Seq<char>),
    Fetch(HttpRequestV),
}

impl View for TokenStep {
    type V = TokenStepV;

    open spec fn view(&self) -> TokenStepV {
        match self {
            TokenStep::Cached(t) => TokenStepV::Cached(t@),
            TokenStep::Fetch(r) => TokenStepV::Fetch(r@),
        }
    }
}

/// The base URL of the API, by region.
pub open spec fn base_url_for(use_feishu: bool) -> Seq<char> {
    if use_feishu {
        CN_BASE_URL@
    } else {
        INT_BASE_URL@
    }
}

/// The request for a tenant token: the app's credentials, posted to the auth endpoint.
pub open spec fn token_request(c: FeishuClientV) -> HttpRequestV {
    HttpRequestV {
        method: Method::Post,
        url: c.base_url + "/auth/v3/tenant_access_token/internal"@,
        authorization: None,
        body: Some(
            JsonV::Object(
                seq![("app_id"@, JsonV::Str(c.app_id)), ("app_secret"@, JsonV::Str(c.app_secret))],
            ),
        ),
    }
}

/// A cached token is handed out while it is not empty and the clock has not
/// reached its expiry.
pub open spec fn token_is_fresh(cache: TokenCacheV, now: int) -> bool {
    cache.token.len() > 0 && now < cache.expires_at
}

/// What `get_tenant_token` does for the client `c` with `cache` at clock `now`.
pub open spec fn token_step(c: FeishuClientV, cache: TokenCacheV, now: int) -> TokenStepV {
    if token_is_fresh(cache, now) {
        TokenStepV::Cached(cache.token)
    } else {
        TokenStepV::Fetch(token_request(c))
    }
}

/// The lifetime that a token reply grants, in seconds: `reply["expire"]`
/// where it is an integer, else 7200, and never less than 60.
pub open spec fn expire_seconds(reply: JsonV) -> int {
    let given = match reply.index("expire"@).as_i64() {
        Some(v) => v,
        None => 7200,
    };
    if given < 60 {
        60
    } else {
        given
    }
}

/// The cache after the token reply `reply` arrived at clock `now`, where the
/// reply holds a token; the cache is unchanged where it does not.
pub open spec fn stored_cache(cache: TokenCacheV, reply: JsonV, now: int) -> TokenCacheV {
    match reply.index("tenant_access_token"@).as_str() {
        Some(t) => TokenCacheV {
            token: t,
            expires_at: now + expire_seconds(reply) * NANOS_PER_SEC - TOKEN_REFRESH_MARGIN,
        },
        None => cache,
    }
}

/// What `store_tenant_token` returns for the token reply `reply`.
pub open spec fn stored_token(reply: JsonV) -> Result<Seq<char>, ToolErrorV> {
    match reply.index("tenant_access_token"@).as_str() {
        Some(t) => Ok(t),
        None => Err(ToolErrorV::AuthFailed(reply)),
    }
}

/// The request that runs a planned call with the bearer token `token`.
pub open spec fn authorized_request(c: FeishuClientV, call: ApiCallV, token: Seq<char>) -> HttpRequestV {
    match call {
        ApiCallV::Get { path } => HttpRequestV {
            method: Method::Get,
            url: c.base_url + path,
            authorization: Some("Bearer "@ + token),
            body: None,
        },
        ApiCallV::Post { path, body } => HttpRequestV {
            method: Method::Post,
            url: c.base_url + path,
            authorization: Some("Bearer "@ + token),
            body: Some(body),
        },
    }
}

/// A token that a reply brought at clock `now` is handed out again exactly
/// while it is not empty and the clock is below `now` plus the lifetime the
/// reply grants, less the refresh margin; at any other reading the client
/// asks the server for a new token.
pub proof fn law_stored_token_is_reused_until_expiry(
    c: FeishuClientV,
    cache: TokenCacheV,
    reply: JsonV,
    now: int,
    later: int,
)
    requires
        reply.index("tenant_access_token"@).as_str() is Some,
    ensures
        ({
            let t = reply.index("tenant_access_token"@).as_str()->0;
            let expiry = now + expire_seconds(reply) * NANOS_PER_SEC - TOKEN_REFRESH_MARGIN;
            token_step(c, stored_cache(cache, reply, now), later) == if t.len() > 0 && later
                < expiry {
                TokenStepV::Cached(t)
            } else {
                TokenStepV::Fetch(token_request(c))
            }
        }),
{
}

/// A token whose reply grants it 300 seconds or less is never handed out
/// again, at the clock reading it arrived at or at any later one.
pub proof fn law_short_lived_token_is_not_reused(
    c: FeishuClientV,
    cache: TokenCacheV,
    reply: JsonV,
    now: int,
    later: int,
)
    requires
        expire_seconds(reply) <= 300,
        now <= later,
    ensures
        token_step(c, stored_cache(cache, reply, now), later) == (match reply.index(
            "tenant_access_token"@,
        ).as_str() {
            Some(_) => TokenStepV::Fetch(token_request(c)),
            None => token_step(c, cache, later),
        }),
{
}

/// A token reply that holds no token changes nothing: the client takes the
/// same step towards a token as it would have without the reply.
pub proof fn law_failed_refresh_keeps_cache(
    c: FeishuClientV,
    cache: TokenCacheV,
    reply: JsonV,
    now: int,
    later: int,
)
    requires
        reply.index("tenant_access_token"@).as_str() is None,
    ensures
        stored_cache(cache, reply, now) == cache,
        token_step(c, stored_cache(cache, reply, now), later) == token_step(c, cache, later),
        stored_token(reply) == Err::<Seq<char>, ToolErrorV>(ToolErrorV::AuthFailed(reply)),
{
}

/// The app secret leaves the client only in the body of the token request:
/// a client that differs in nothing but its secret sends the same request
/// for every planned call and hands out the same cached token. What a token
/// reply yields (the token, or the error that carries the reply) is a
/// function of the reply alone.
pub proof fn law_secret_only_in_token_request(
    c: FeishuClientV,
    other_secret: Seq<char>,
    cache: TokenCacheV,
    now: int,
    call: ApiCallV,
    token: Seq<char>,
)
    ensures
        ({
            let c2 = FeishuClientV {
                app_id: c.app_id,
                app_secret: other_secret,
                base_url: c.base_url,
            };
            &&& authorized_request(c, call, token) == authorized_request(c2, call, token)
            &&& token_is_fresh(cache, now) ==> token_step(c, cache, now) == token_step(
                c2,
                cache,
                now,
            )
            &&& token_request(c).url == token_request(c2).url
            &&& token_request(c).authorization == None::<Seq<char>>
            &&& token_request(c).body == Some(
                JsonV::Object(
                    seq![
                        ("app_id"@, JsonV::Str(c.app_id)),
                        ("app_secret"@, JsonV::Str(c.app_secret)),
                    ],
                ),
            )
        }),
{
}

/// The host of the API, by region.
pub open spec fn api_host(use_feishu: bool) -> Seq<char> {
    if use_feishu {
        "open.feishu.cn"@
    } else {
        "open.larksuite.com"@
    }
}

/// The characters that could end or redirect the host part of a URL.
pub open spec fn is_host_delimiter(ch: char) -> bool {
    ch == '/' || ch == '@' || ch == ':' || ch == '?' || ch == '#' || ch == '\\'
}

/// Every request of a client made by `new` goes to the API's host: its URL
/// begins with `https://`, the host, and `/`, and the host holds no character
/// that could end or redirect it, so no path sends the bearer token (or the
/// credentials) to another host.
pub proof fn law_requests_stay_on_api_host(
    use_feishu: bool,
    app_id: Seq<char>,
    app_secret: Seq<char>,
    call: ApiCallV,
    token: Seq<char>,
)
    ensures
        ({
            let c = FeishuClientV { app_id, app_secret, base_url: base_url_for(use_feishu) };
            let prefix = "https://"@ + api_host(use_feishu) + "/"@;
            let url = authorized_request(c, call, token).url;
            let token_url = token_request(c).url;
            &&& prefix.len() <= url.len()
            &&& url.subrange(0, prefix.len() as int) == prefix
            &&& prefix.len() <= token_url.len()
            &&& token_url.subrange(0, prefix.len() as int) == prefix
            &&& forall|i: int|
                0 <= i < api_host(use_feishu).len() ==> !is_host_delimiter(
                    #[trigger] api_host(use_feishu)[i],
                )
        }),
{
    reveal_strlit("https://open.feishu.cn/open-apis");
    reveal_strlit("https://open.larksuite.com/open-apis");
    reveal_strlit("https://");
    reveal_strlit("open.feishu.cn");
    reveal_strlit("open.larksuite.com");
    reveal_strlit("/");
    let c = FeishuClientV { app_id, app_secret, base_url: base_url_for(use_feishu) };
    let prefix = "https://"@ + api_host(use_feishu) + "/"@;
    let base = base_url_for(use_feishu);
    assert(base.subrange(0, prefix.len() as int) =~= prefix);
    let url = authorized_request(c, call, token).url;
    let path = match call {
        ApiCallV::Get { path } => path,
        ApiCallV::Post { path, body } => path,
    };
    assert(url == base + path);
    assert(url.subrange(0, prefix.len() as int) =~= prefix);
    let token_url = token_request(c).url;
    assert(token_url.subrange(0, prefix.len() as int) =~= prefix);
}

/// A token reply always grants at least 60 seconds.
pub proof fn law_expire_at_least_a_minute(reply: JsonV)
    ensures
        expire_seconds(reply) >= 60,
{
}

impl FeishuClient {
    /// A client for the given app; `use_feishu` picks the Feishu (China) API,
    /// otherwise the Lark (international) one.
    pub fn new(app_id: String, app_secret: String, use_feishu: bool) -> (r: Arc<FeishuClient>)
        ensures
            r@ == (FeishuClientV {
                app_id: app_id@,
                app_secret: app_secret@,
                base_url: base_url_for(use_feishu),
            }),
    {
        Arc::new(
            FeishuClient {
                app_id,
                app_secret,
                base_url: if use_feishu {
                    CN_BASE_URL
                } else {
                    INT_BASE_URL
                },
            },
        )
    }

    /// The step towards a tenant token at clock `now`: the cached token while
    /// it is fresh, otherwise the request that fetches a new one.
    pub fn get_tenant_token(&self, cache: &TokenCache, now: i128) -> (r: TokenStep)
        ensures
            r@ == token_step(self@, cache@, now as int),
    {
        if !cache.token.as_str().is_empty() && now < cache.expires_at {
            TokenStep::Cached(cache.token.clone())
        } else {
            TokenStep::Fetch(self.token_request())
        }
    }

    fn token_request(&self) -> (r: HttpRequest)
        ensures
            r@ == token_request(self@),
    {
        let mut url = self.base_url.to_owned();
        url.append("/auth/v3/tenant_access_token/internal");
        let mut entries: Vec<(String, Json)> = Vec::new();
        entries.push(("app_id".to_owned(), Json::Str(self.app_id.clone())));
        entries.push(("app_secret".to_owned(), Json::Str(self.app_secret.clone())));
        proof {
            assert(entries@[0].1@ == JsonV::Str(self@.app_id));
            assert(entries@[1].1@ == JsonV::Str(self@.app_secret));
        }
        let body = Json::Object(entries);
        let r = HttpRequest { method: Method::Post, url, authorization: None, body: Some(body) };
        assert(r@.body == token_request(self@).body) by {
            assert(body@->Object_0 =~= seq![
                ("app_id"@, JsonV::Str(self@.app_id)),
                ("app_secret"@, JsonV::Str(self@.app_secret)),
            ]);
        }
        r
    }

    /// Takes in the server's answer `reply` to a token request that arrived at
    /// clock `now`: where it holds a token, caches it and hands it out.
    pub fn store_tenant_token(&self, cache: &mut TokenCache, reply: &Json, now: i128) -> (r: Result<
        String,
        ToolError,
    >)
        requires
            0 <= now <= MAX_CLOCK,
        ensures
            crate::tool::outcome(r) == stored_token(reply@),
            final(cache)@ == stored_cache(old(cache)@, reply@, now as int),
    {
        match crate::tool::str_field(reply, "tenant_access_token") {
            Some(token) => {
                let given = match reply.get("expire") {
                    Some(v) => match v.as_i64() {
                        Some(n) => n,
                        None => 7200,
                    },
                    None => 7200,
                };
                let expire: i64 = if given < 60 {
                    60
                } else {
                    given
                };
                let lifetime: i128 = (expire as i128) * NANOS_PER_SEC;
                cache.token = token.clone();
                cache.expires_at = now + lifetime - TOKEN_REFRESH_MARGIN;
                Ok(token)
            },
            None => Err(ToolError::AuthFailed(reply.deep_clone())),
        }
    }

    /// The `GET` request for `path` with the bearer token `token`.
    pub fn get(&self, path: &str, token: &str) -> (r: HttpRequest)
        ensures
            r@ == (HttpRequestV {
                method: Method::Get,
                url: self@.base_url + path@,
                authorization: Some("Bearer "@ + token@),
                body: None,
            }),
    {
        let mut url = self.base_url.to_owned();
        url.append(path);
        let mut auth = "Bearer ".to_owned();
        auth.append(token);
        HttpRequest { method: Method::Get, url, authorization: Some(auth), body: None }
    }

    /// The `POST` request of `body` to `path` with the bearer token `token`.
    pub fn post(&self, path: &str, body: Json, token: &str) -> (r: HttpRequest)
        ensures
            r@ == (HttpRequestV {
                method: Method::Post,
                url: self@.base_url + path@,
                authorization: Some("Bearer "@ + token@),
                body: Some(body@),
            }),
    {
        let mut url = self.base_url.to_owned();
        url.append(path);
        let mut auth = "Bearer ".to_owned();
        auth.append(token);
        HttpRequest { method: Method::Post, url, authorization: Some(auth), body: Some(body) }
    }

    /// The request that runs the planned call `call` with the bearer token `token`.
    pub fn authorize(&self, call: ApiCall, token: &str) -> (r: HttpRequest)
        ensures
            r@ == authorized_request(self@, call@, token@),
    {
        match call {
            ApiCall::Get { path } => self.get(path.as_str(), token),
            ApiCall::Post { path, body } => self.post(path.as_str(), body, token),
        }
    }
}

impl TokenCache {
    /// An empty cache at clock `now`.
    pub fn new(now: i128) -> (r: TokenCache)
        ensures
            r@ == (TokenCacheV { token: Seq::empty(), expires_at: now as int }),
    {
        TokenCache { token: String::new(), expires_at: now }
    }
}

} // verus!
