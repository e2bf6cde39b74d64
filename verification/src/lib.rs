//! A client library for a Reddit-style, OAuth2-authenticated REST API.
//!
//! The crate models the authenticated request pipeline and the
//! cursor-pagination engine as verified state machines over plain values:
//! every function that decides what to send, or what to make of a response,
//! lives here with a contract.  The actual transport (sending the prepared
//! requests and collecting status and body) is left to the embedding
//! program, which drives the state machines with the responses it receives.

use vstd::prelude::*;

pub mod codec;
pub mod errors;
pub mod ext;
pub mod listing;
pub mod models;
pub mod query_listing;
pub mod strutil;

pub use errors::ApiError;
pub use models::subreddit::Subreddit;
pub use query_listing::QueryListingRequest;

verus! {

/// The views of a sequence of owned string pairs.
pub open spec fn pairs_view(v: Seq<(String, String)>) -> Seq<(Seq<char>, Seq<char>)> {
    v.map_values(|p: (String, String)| (p.0@, p.1@))
}

/// The literal placeholder that paths may carry for the authenticated
/// account's name.
pub open spec fn placeholder() -> Seq<char> {
    "{username}"@
}

/// Program configuration: the values required to obtain a token from the
/// OAuth endpoint and to identify the client on every request.
///
/// `username` and `password` are the account's login credentials.
/// `user_agent` is sent as the `User-Agent` header on every request.
/// `client_id` and `client_secret` identify the registered application.
#[derive(Debug, PartialEq, Clone)]
pub struct Config {
    /// Account username
    pub username: String,
    /// Account password
    pub password: String,
    /// User agent to use
    pub user_agent: String,
    /// App client id
    pub client_id: String,
    /// App client secret
    pub client_secret: String,
}

/// The decoded body of the OAuth token endpoint's response.
#[derive(Debug, PartialEq)]
pub struct AccessTokenResponse {
    /// The access token itself
    pub token: String,
    /// The token's type, as reported by the endpoint
    pub token_type: String,
    /// Seconds until the token expires; not acted on here
    pub expires_in: u64,
    /// The granted scope
    pub scope: String,
}

impl AccessTokenResponse {
    /// Decodes a token endpoint response body.  The token is read from the
    /// `access_token` member, or from `token` where only that is present;
    /// `token_type` and `scope` must be strings and `expires_in` a number.
    /// Decoding succeeds exactly when the body carries all of that, and
    /// then yields exactly the fields the body carries; any shape mismatch
    /// is reported as a decode failure.
    pub fn from_json_str(body: &str) -> (r: Result<AccessTokenResponse, ApiError>)
        ensures
            r is Ok <==> ext::token_fields_of(body@) is Some,
            r is Ok ==> {
                let f = ext::token_fields_of(body@)->Some_0;
                &&& r->Ok_0.token@ == f.0
                &&& r->Ok_0.token_type@ == f.1
                &&& r->Ok_0.expires_in == f.2
                &&& r->Ok_0.scope@ == f.3
            },
            r is Err ==> r->Err_0.source@ == "serde_json::error::Error"@,
            ext::json_doc_ok(body@) && ext::token_fields_of(body@) is None ==> r is Err
                && r->Err_0.message@ == "Access token response is malformed"@,
    {
        match ext::read_token_response(body) {
            Some(fields) => Ok(
                AccessTokenResponse {
                    token: fields.0,
                    token_type: fields.1,
                    expires_in: fields.2,
                    scope: fields.3,
                },
            ),
            None => {
                match ext::json_from_str(body) {
                    Err(e) => Err(ApiError::from(e)),
                    Ok(_) => Err(Self::malformed()),
                }
            },
        }
    }

    fn malformed() -> (e: ApiError)
        ensures
            e.source@ == "serde_json::error::Error"@,
            e.message@ == "Access token response is malformed"@,
    {
        ApiError {
            source: "serde_json::error::Error".to_owned(),
            message: "Access token response is malformed".to_owned(),
        }
    }
}

/// Reddit API access: the configuration, the cached access token, and the
/// cached identity snapshot.  The embedding program owns the transport; it
/// sends the request plans prepared here and feeds the responses back.
pub struct Api {
    /// The credentials and the user agent
    pub config: Config,
    /// The base URL of the OAuth token endpoint's host
    pub auth_base_url: String,
    /// The base URL that every authenticated request is issued against
    pub api_base_url: String,
    /// The cached token; absent until a login succeeds
    pub access_token: Option<AccessTokenResponse>,
    /// The account's whoami info; absent until a login succeeds
    pub whoami: Option<serde_json::Value>,
    /// The `name` member of the whoami info, where it carried one
    pub whoami_name: Option<String>,
}

/// A prepared token request: POST to `url` with HTTP Basic authentication,
/// the given `User-Agent` header, and the URL-form-encoded body `form`.
#[derive(Debug)]
pub struct TokenRequestPlan {
    /// The absolute URL of the token endpoint
    pub url: String,
    /// The `User-Agent` header value
    pub user_agent: String,
    /// The Basic-auth user: the app's client id
    pub basic_auth_user: String,
    /// The Basic-auth password: the app's client secret
    pub basic_auth_password: String,
    /// The form fields of the request body, in order
    pub form: Vec<(String, String)>,
}

/// A prepared API request: `method` against `url` with `headers`, the
/// query parameters of `query` if any, and the URL-form-encoded body
/// `form` if any.
#[derive(Debug)]
pub struct QueryPlan {
    /// The validated HTTP method token
    pub method: String,
    /// The absolute request URL
    pub url: String,
    /// The request headers, as name and value pairs
    pub headers: Vec<(String, String)>,
    /// The query parameters, where given
    pub query: Option<Vec<(String, String)>>,
    /// The form fields of the request body, where given
    pub form: Option<Vec<(String, String)>>,
}

/// A successful token step caches a token and touches nothing else.
pub open spec fn token_step_ok(pre: Api, post: Api) -> bool {
    &&& post.access_token is Some
    &&& post.config == pre.config
    &&& post.whoami == pre.whoami
    &&& post.whoami_name == pre.whoami_name
    &&& post.auth_base_url == pre.auth_base_url
    &&& post.api_base_url == pre.api_base_url
}

/// A successful identity step caches a whoami snapshot and its `name`
/// member, and touches neither the token nor the configuration.
pub open spec fn whoami_step_ok(pre: Api, post: Api) -> bool {
    &&& post.whoami is Some
    &&& post.access_token == pre.access_token
    &&& post.config == pre.config
    &&& post.auth_base_url == pre.auth_base_url
    &&& post.api_base_url == pre.api_base_url
}

impl Api {
    /// The header list attached to every authenticated request: always the
    /// configured `User-Agent`, and a bearer `Authorization` header when a
    /// token is cached.
    pub open spec fn spec_headers(self) -> Seq<(Seq<char>, Seq<char>)> {
        match self.access_token {
            Some(t) => seq![
                ("User-Agent"@, self.config.user_agent@),
                ("Authorization"@, "bearer "@ + t.token@),
            ],
            None => seq![("User-Agent"@, self.config.user_agent@)],
        }
    }

    /// The absolute URL for a relative path: the placeholder, where
    /// present, replaced by the cached identity's name, prefixed with the
    /// API base URL.
    pub open spec fn spec_reformatted(self, path: Seq<char>) -> Seq<char> {
        if strutil::spec_contains(path, placeholder()) {
            self.api_base_url@ + "/"@ + strutil::spec_replaced(
                path,
                placeholder(),
                self.whoami_name->Some_0@,
            )
        } else {
            self.api_base_url@ + "/"@ + path
        }
    }

    /// A path can be reformatted unless it carries the placeholder while no
    /// identity is cached.
    pub open spec fn can_reformat(self, path: Seq<char>) -> bool {
        !strutil::spec_contains(path, placeholder()) || self.whoami_name is Some
    }

    /// Create a new API client with nothing cached yet.
    pub fn new(config: Config) -> (api: Api)
        ensures
            api.config == config,
            api.access_token is None,
            api.whoami is None,
            api.whoami_name is None,
            api.auth_base_url@ == "https://www.reddit.com"@,
            api.api_base_url@ == "https://oauth.reddit.com"@,
    {
        Api {
            config,
            auth_base_url: "https://www.reddit.com".to_owned(),
            api_base_url: "https://oauth.reddit.com".to_owned(),
            access_token: None,
            whoami: None,
            whoami_name: None,
        }
    }

    /// Returns the username from the stored whoami data.
    pub fn get_username(&self) -> (r: Option<String>)
        ensures
            r == self.whoami_name,
    {
        match &self.whoami_name {
            Some(n) => Some(n.clone()),
            None => None,
        }
    }

    /// Prepares the password-grant token request from the configuration.
    pub fn login_token_plan(&self) -> (r: TokenRequestPlan)
        ensures
            r.url@ == self.auth_base_url@ + "/api/v1/access_token"@,
            r.user_agent == self.config.user_agent,
            r.basic_auth_user == self.config.client_id,
            r.basic_auth_password == self.config.client_secret,
            pairs_view(r.form@) == seq![
                ("grant_type"@, "password"@),
                ("username"@, self.config.username@),
                ("password"@, self.config.password@),
            ],
    {
        let mut url = self.auth_base_url.clone();
        url.append("/api/v1/access_token");
        let mut form: Vec<(String, String)> = Vec::new();
        form.push(("grant_type".to_owned(), "password".to_owned()));
        form.push(("username".to_owned(), self.config.username.clone()));
        form.push(("password".to_owned(), self.config.password.clone()));
        proof {
            assert(pairs_view(form@) =~= seq![
                ("grant_type"@, "password"@),
                ("username"@, self.config.username@),
                ("password"@, self.config.password@),
            ]);
        }
        TokenRequestPlan {
            url,
            user_agent: self.config.user_agent.clone(),
            basic_auth_user: self.config.client_id.clone(),
            basic_auth_password: self.config.client_secret.clone(),
            form,
        }
    }

    /// Applies the token endpoint's response body: exactly when the body
    /// decodes as a token response, the fields it carries are cached as
    /// the token and nothing else changes; on failure the client is left
    /// exactly as it was.
    pub fn login_token_response(&mut self, body: &str) -> (r: Result<(), ApiError>)
        ensures
            r is Ok <==> ext::token_fields_of(body@) is Some,
            r is Ok ==> token_step_ok(*old(self), *final(self)) && {
                let f = ext::token_fields_of(body@)->Some_0;
                &&& final(self).access_token->Some_0.token@ == f.0
                &&& final(self).access_token->Some_0.token_type@ == f.1
                &&& final(self).access_token->Some_0.expires_in == f.2
                &&& final(self).access_token->Some_0.scope@ == f.3
            },
            r is Err ==> *final(self) == *old(self) && r->Err_0.source@
                == "serde_json::error::Error"@,
    {
        match AccessTokenResponse::from_json_str(body) {
            Ok(t) => {
                self.access_token = Some(t);
                Ok(())
            },
            Err(e) => Err(e),
        }
    }

    /// Applies the identity endpoint's response body: exactly when the
    /// body parses as JSON, the opaque whoami snapshot is cached, together
    /// with the body's `name` member exactly where it carries a string
    /// one, and neither the token nor the configuration changes; on
    /// failure the client is left exactly as it was.
    pub fn login_whoami_response(&mut self, body: &str) -> (r: Result<(), ApiError>)
        ensures
            r is Ok <==> ext::json_doc_ok(body@),
            r is Ok ==> whoami_step_ok(*old(self), *final(self)) && (final(self).whoami_name
                is Some <==> ext::whoami_name_of(body@) is Some) && (final(self).whoami_name
                is Some ==> final(self).whoami_name->Some_0@ == ext::whoami_name_of(
                body@,
            )->Some_0),
            r is Err ==> *final(self) == *old(self) && r->Err_0.source@
                == "serde_json::error::Error"@,
    {
        let v = match ext::json_from_str(body) {
            Ok(v) => v,
            Err(e) => {
                return Err(ApiError::from(e));
            },
        };
        let name = ext::read_whoami_name(body);
        self.whoami = Some(v);
        self.whoami_name = name;
        Ok(())
    }

    /// Generate headers for the request.  Always includes the `User-Agent`
    /// header, and includes the OAuth token if available.
    pub fn get_headers(&self) -> (r: Vec<(String, String)>)
        ensures
            pairs_view(r@) == self.spec_headers(),
    {
        let mut v: Vec<(String, String)> = Vec::new();
        v.push(("User-Agent".to_owned(), self.config.user_agent.clone()));
        match &self.access_token {
            Some(t) => {
                let mut auth = "bearer ".to_owned();
                auth.append(t.token.as_str());
                v.push(("Authorization".to_owned(), auth));
            },
            None => {},
        }
        proof {
            assert(pairs_view(v@) =~= self.spec_headers());
        }
        v
    }

    /// The absolute URL for the relative path: replaces the placeholder
    /// with the cached identity's name, and prefixes the API base URL.
    /// A path carrying the placeholder is rejected with an application
    /// error while no identity is cached.
    pub fn reformat_path(&self, path: &str) -> (r: Result<String, ApiError>)
        ensures
            r is Ok <==> self.can_reformat(path@),
            r is Ok ==> r->Ok_0@ == self.spec_reformatted(path@),
            r is Err ==> r->Err_0.source@ == Seq::<char>::empty() && r->Err_0.message@
                == "No identity is cached to substitute for '{username}'"@,
    {
        proof {
            reveal_strlit("{username}");
        }
        let replaced: String = if strutil::contains_exec(path, "{username}") {
            match self.get_username() {
                Some(name) => strutil::replace_all(path, "{username}", name.as_str()),
                None => {
                    return Err(
                        ApiError::application(
                            "No identity is cached to substitute for '{username}'".to_owned(),
                        ),
                    );
                },
            }
        } else {
            path.to_owned()
        };
        let mut url = self.api_base_url.clone();
        url.append("/");
        url.append(replaced.as_str());
        Ok(url)
    }

    /// Prepares a single API request: validates the HTTP method token,
    /// rewrites the path, and attaches the headers and the given query and
    /// form parameters.  An unparsable method is rejected with a
    /// method-parsing error before anything else is checked.
    pub fn query_plan(
        &self,
        method: &str,
        path: &str,
        query: Option<Vec<(String, String)>>,
        form_data: Option<Vec<(String, String)>>,
    ) -> (r: Result<QueryPlan, ApiError>)
        ensures
            r is Ok <==> ext::method_ok(method@) && self.can_reformat(path@),
            method@ == "GET"@ || method@ == "POST"@ ==> ext::method_ok(method@),
            r is Ok ==> r->Ok_0.method@ == method@ && r->Ok_0.url@ == self.spec_reformatted(path@)
                && pairs_view(r->Ok_0.headers@) == self.spec_headers() && r->Ok_0.query == query
                && r->Ok_0.form == form_data,
            !ext::method_ok(method@) ==> r is Err && r->Err_0.source@
                == "http::method::InvalidMethod"@,
            ext::method_ok(method@) && !self.can_reformat(path@) ==> r is Err && r->Err_0.source@
                == Seq::<char>::empty(),
    {
        match ext::parse_method(method) {
            Ok(u) => u,
            Err(e) => {
                return Err(ApiError::from(e));
            },
        };
        let url = match self.reformat_path(path) {
            Ok(u) => u,
            Err(e) => {
                return Err(e);
            },
        };
        Ok(
            QueryPlan {
                method: method.to_owned(),
                url,
                headers: self.get_headers(),
                query,
                form: form_data,
            },
        )
    }

    /// Prepares the identity request that follows a successful token step:
    /// GET against `api/v1/me` with the current headers, so with the bearer
    /// token exactly when one is cached.
    pub fn whoami_plan(&self) -> (r: QueryPlan)
        ensures
            r.method@ == "GET"@,
            r.url@ == self.spec_reformatted("api/v1/me"@),
            pairs_view(r.headers@) == self.spec_headers(),
            r.query is None,
            r.form is None,
    {
        proof {
            reveal_strlit("api/v1/me");
            reveal_strlit("{username}");
            assert(!strutil::spec_contains("api/v1/me"@, placeholder()));
        }
        let r = self.query_plan("GET", "api/v1/me", None, None);
        match r {
            Ok(plan) => plan,
            Err(_) => vstd::pervasive::unreached(),
        }
    }

    /// Prepares the subreddit-name search request: GET against
    /// `api/search_reddit_names` with `query=<name>` and `exact=false`.
    pub fn search_plan(&self, name: &str) -> (r: QueryPlan)
        ensures
            r.method@ == "GET"@,
            r.url@ == self.spec_reformatted("api/search_reddit_names"@),
            pairs_view(r.headers@) == self.spec_headers(),
            r.query is Some,
            pairs_view(r.query->Some_0@) == seq![("query"@, name@), ("exact"@, "false"@)],
            r.form is None,
    {
        proof {
            reveal_strlit("api/search_reddit_names");
            reveal_strlit("{username}");
            assert(forall|k: int|
                0 <= k < "api/search_reddit_names"@.len() ==> "api/search_reddit_names"@[k]
                    != '{');
            strutil::lemma_not_contains_by_char(
                "api/search_reddit_names"@,
                placeholder(),
                '{',
            );
        }
        let mut q: Vec<(String, String)> = Vec::new();
        q.push(("query".to_owned(), name.to_owned()));
        q.push(("exact".to_owned(), "false".to_owned()));
        proof {
            assert(pairs_view(q@) =~= seq![("query"@, name@), ("exact"@, "false"@)]);
        }
        let r = self.query_plan("GET", "api/search_reddit_names", Some(q), None);
        match r {
            Ok(plan) => plan,
            Err(_) => vstd::pervasive::unreached(),
        }
    }

    /// Starts a paginated fetch for the given descriptor: the path is
    /// rewritten once, the headers are attached, and the loop state is
    /// seeded from the descriptor's cursor, counter and request budget.
    pub fn start_listing(&self, ql: &QueryListingRequest) -> (r: Result<
        listing::ListingFetch,
        ApiError,
    >)
        ensures
            r is Ok <==> self.can_reformat(ql.path@),
            r is Ok ==> {
                let f = r->Ok_0;
                &&& f.url@ == self.spec_reformatted(ql.path@)
                &&& pairs_view(f.headers@) == self.spec_headers()
                &&& pairs_view(f.params@) == borrowed_pairs_view(ql.params@)
                &&& f.limit == ql.limit
                &&& f.show_all == ql.show_all
                &&& f.count == ql.count
                &&& f.remaining == ql.requests
                &&& f.items@.len() == 0
                &&& (ql.after is Some ==> f.after@ == ql.after->Some_0@)
                &&& (ql.after is None ==> f.after@.len() == 0)
            },
            r is Err ==> r->Err_0.source@ == Seq::<char>::empty(),
    {
        let url = match self.reformat_path(ql.path) {
            Ok(u) => u,
            Err(e) => {
                return Err(e);
            },
        };
        let headers = self.get_headers();
        let mut params: Vec<(String, String)> = Vec::new();
        let mut i: usize = 0;
        while i < ql.params.len()
            invariant
                i <= ql.params@.len(),
                params@.len() == i,
                forall|j: int|
                    0 <= j < i ==> (#[trigger] params@[j]).0@ == ql.params@[j].0@
                        && params@[j].1@ == ql.params@[j].1@,
            decreases ql.params@.len() - i,
        {
            let p = ql.params[i];
            params.push((p.0.to_owned(), p.1.to_owned()));
            i = i + 1;
        }
        proof {
            assert(pairs_view(params@) =~= borrowed_pairs_view(ql.params@));
        }
        let after = match ql.after {
            Some(a) => a.to_owned(),
            None => String::new(),
        };
        Ok(
            listing::ListingFetch {
                url,
                headers,
                params,
                limit: ql.limit,
                show_all: ql.show_all,
                after,
                count: ql.count,
                remaining: ql.requests,
                items: Vec::new(),
            },
        )
    }
}

/// The views of a sequence of borrowed string pairs, as a descriptor
/// holds them.
pub open spec fn borrowed_pairs_view<'a>(v: Seq<(&'a str, &'a str)>) -> Seq<
    (Seq<char>, Seq<char>),
> {
    v.map_values(|p: (&'a str, &'a str)| (p.0@, p.1@))
}

/// A token and an identity snapshot are both cached exactly when both
/// login steps succeeded; the token step alone leaves the identity fields
/// untouched, so a failed identity step leaves a cached token in place.
pub proof fn lemma_login_caching(a0: Api, a1: Api, a2: Api)
    ensures
        token_step_ok(a0, a1) && whoami_step_ok(a1, a2) ==> a2.access_token is Some && a2.whoami
            is Some,
        token_step_ok(a0, a1) ==> a1.access_token is Some && a1.whoami == a0.whoami
            && a1.whoami_name == a0.whoami_name,
{
}

} // verus!
