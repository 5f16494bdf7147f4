use vstd::prelude::*;
use vstd::std_specs::convert::FromSpecImpl;
use crate::config::{AxiosConfig, AxiosRequestConfig};
use crate::error::AxiosError;
use crate::interceptor::{chain_yields, InterceptorManager};
use crate::json::{json_encoded, render};
use crate::message::{Request, RequestView, Response};
use crate::method::HttpMethod;
use crate::response::{decode_reply, meets, outcome_of, AxiosResponse};

verus! {

/// The body that goes out for the payload `data`: its JSON text; none without
/// a payload.
pub open spec fn body_text(data: Option<&serde_json::Value>) -> Option<Seq<char>> {
    match data {
        Some(value) => json_encoded(*value),
        None => None,
    }
}

/// Whether the payload `data` can go out: there is none, or it can be written
/// as JSON.
pub open spec fn writable(data: Option<&serde_json::Value>) -> bool {
    match data {
        Some(value) => json_encoded(*value) is Some,
        None => true,
    }
}

/// A client: its configuration and its interceptors. The transport is the
/// caller's: `request` and the methods named after the verbs give the request to
/// send, and `settle` takes what the transport came back with.
pub struct Axios {
    pub config: AxiosConfig,
    pub interceptors: InterceptorManager,
}

impl Axios {
    /// The request that this client drafts: the target is the base with the
    /// path appended as it stands, nothing put between and nothing escaped; the
    /// headers are the client's with the request's own written over them.
    pub open spec fn outgoing(
        &self,
        method: HttpMethod,
        path: Seq<char>,
        own_headers: Map<Seq<char>, Seq<char>>,
        body: Option<Seq<char>>,
    ) -> RequestView {
        RequestView {
            method,
            url: self.config.base_url@ + path,
            headers: self.config.headers@.union_prefer_right(own_headers),
            body,
        }
    }

    /// Whether `out` can be what this client sends for such a request: the
    /// draft, handed through the interceptors of requests in their order.
    pub open spec fn sends(
        &self,
        method: HttpMethod,
        path: Seq<char>,
        own_headers: Map<Seq<char>, Seq<char>>,
        body: Option<Seq<char>>,
        out: Request,
    ) -> bool {
        exists|draft: Request| #[trigger]
            chain_yields(self.interceptors.request_handlers@, draft, out) && draft@
                == self.outgoing(method, path, own_headers, body)
    }

    /// Whether `result` can be what this client makes of the reply `res`: the
    /// reply is handed through the interceptors of replies in their order, and
    /// what comes out is decoded by its status.
    pub open spec fn answers(
        &self,
        res: Response,
        result: Result<AxiosResponse<serde_json::Value>, AxiosError<serde_json::Value>>,
    ) -> bool {
        exists|seen: Response| #[trigger]
            chain_yields(self.interceptors.response_handlers@, res, seen) && meets(
                result,
                seen.status,
                outcome_of(seen.status, seen.body@),
            )
    }

    /// Whether `prepared` is what this client gives for such a request, given
    /// what writing its payload gave (`None` without a payload): the failure of
    /// the writing, or a request that `sends` allows.
    pub open spec fn prepares(
        &self,
        method: HttpMethod,
        path: Seq<char>,
        own_headers: Map<Seq<char>, Seq<char>>,
        written: Option<Result<String, serde_json::Error>>,
        prepared: Result<Request, AxiosError<serde_json::Value>>,
    ) -> bool {
        match written {
            Some(Err(problem)) => prepared matches Err(AxiosError::SerdeError(carried)) && carried
                == problem,
            Some(Ok(text)) => prepared matches Ok(out) && self.sends(
                method,
                path,
                own_headers,
                Some(text@),
                out,
            ),
            None => prepared matches Ok(out) && self.sends(method, path, own_headers, None, out),
        }
    }

    /// Creates a client with the default configuration and no interceptors.
    pub fn new() -> (axios: Axios)
        ensures
            axios.config.is_initial(),
            axios.interceptors.request_handlers@.len() == 0,
            axios.interceptors.response_handlers@.len() == 0,
    {
        Axios { config: AxiosConfig::new(), interceptors: InterceptorManager::new() }
    }

    /// Drafts the request for `cfg`, given what writing the payload as JSON
    /// gave (`None` for a request without payload). An unknown method fails
    /// first; then a payload that could not be written.
    pub fn draft(
        &self,
        cfg: AxiosRequestConfig,
        body: Option<Result<String, serde_json::Error>>,
    ) -> (drafted: Result<Request, AxiosError<serde_json::Value>>)
        ensures
            match HttpMethod::chosen(cfg.method_token()) {
                None => drafted matches Err(AxiosError::UnknownMethod(token)) && Some(token@)
                    == cfg.method_token(),
                Some(method) => match body {
                    Some(Err(problem)) => drafted matches Err(AxiosError::SerdeError(carried))
                        && carried == problem,
                    Some(Ok(text)) => drafted matches Ok(req) && req@ == self.outgoing(
                        method,
                        cfg.url@,
                        cfg.own_headers(),
                        Some(text@),
                    ),
                    None => drafted matches Ok(req) && req@ == self.outgoing(
                        method,
                        cfg.url@,
                        cfg.own_headers(),
                        None,
                    ),
                },
            },
            drafted matches Ok(req) ==> req.url@ == self.config.base_url@ + cfg.url@,
    {
        let method = match cfg.method {
            Some(token) => match HttpMethod::string_to_method(token.as_str()) {
                Some(method) => method,
                None => {
                    return Err(AxiosError::UnknownMethod(token));
                },
            },
            None => HttpMethod::Get,
        };
        let text = match body {
            Some(Ok(text)) => Some(text),
            Some(Err(problem)) => {
                return Err(AxiosError::SerdeError(problem));
            },
            None => None,
        };
        let headers = match &cfg.headers {
            Some(own) => self.config.headers.merge(own),
            None => self.config.headers.clone(),
        };
        proof {
            assert(headers@ =~= self.config.headers@.union_prefer_right(cfg.own_headers()));
        }
        let url = self.config.base_url.clone().concat(cfg.url.as_str());
        Ok(Request { method, url, headers, body: text })
    }

    /// Prepares the request for `cfg`, given what writing the payload as JSON
    /// gave (`None` for a request without payload): drafts it, then hands it
    /// through the interceptors of requests. An unknown method fails first;
    /// then a payload that could not be written. Nothing has been sent when
    /// this fails.
    pub fn prepare(
        &self,
        cfg: AxiosRequestConfig,
        written: Option<Result<String, serde_json::Error>>,
    ) -> (prepared: Result<Request, AxiosError<serde_json::Value>>)
        ensures
            match HttpMethod::chosen(cfg.method_token()) {
                None => prepared matches Err(AxiosError::UnknownMethod(token)) && Some(token@)
                    == cfg.method_token(),
                Some(method) => self.prepares(
                    method,
                    cfg.url@,
                    cfg.own_headers(),
                    written,
                    prepared,
                ),
            },
    {
        match self.draft(cfg, written) {
            Ok(draft) => {
                let out = self.interceptors.apply_request(draft);
                Ok(out)
            },
            Err(problem) => Err(problem),
        }
    }

    /// Prepares a request with the given method for the path `url`, with the
    /// client's headers alone, given what writing the payload as JSON gave
    /// (`None` for a request without payload).
    pub fn prepare_verb(
        &self,
        method: HttpMethod,
        url: &str,
        written: Option<Result<String, serde_json::Error>>,
    ) -> (prepared: Result<Request, AxiosError<serde_json::Value>>)
        ensures
            self.prepares(method, url@, Map::empty(), written, prepared),
    {
        proof {
            HttpMethod::lemma_name_is_read_back(method);
        }
        let cfg = AxiosRequestConfig {
            url: url.to_owned(),
            method: Some(method.as_str().to_owned()),
            headers: None,
        };
        self.prepare(cfg, written)
    }

    /// Prepares the request for `cfg` with the payload `data`: writes the
    /// payload as JSON, drafts the request, then hands it through the
    /// interceptors of requests. It fails on an unknown method, and otherwise
    /// exactly when the payload cannot be written. Nothing has been sent when
    /// this fails.
    pub fn request(&self, cfg: AxiosRequestConfig, data: Option<&serde_json::Value>) -> (prepared:
        Result<Request, AxiosError<serde_json::Value>>)
        ensures
            match HttpMethod::chosen(cfg.method_token()) {
                None => prepared matches Err(AxiosError::UnknownMethod(token)) && Some(token@)
                    == cfg.method_token(),
                Some(method) => match prepared {
                    Ok(out) => writable(data) && self.sends(
                        method,
                        cfg.url@,
                        cfg.own_headers(),
                        body_text(data),
                        out,
                    ),
                    Err(AxiosError::SerdeError(_)) => !writable(data),
                    Err(_) => false,
                },
            },
            self.interceptors.request_handlers@.len() == 0 ==> (prepared matches Ok(out) ==> out@
                == self.outgoing(
                HttpMethod::chosen(cfg.method_token())->Some_0,
                cfg.url@,
                cfg.own_headers(),
                body_text(data),
            )),
    {
        let known = match &cfg.method {
            Some(token) => HttpMethod::string_to_method(token.as_str()).is_some(),
            None => true,
        };
        let written = match data {
            Some(value) => if known {
                Some(render(value))
            } else {
                None
            },
            None => None,
        };
        self.prepare(cfg, written)
    }

    /// Decides what the reply `res` is to the caller: hands it through the
    /// interceptors of replies, then decodes it by its status.
    pub fn respond(&self, res: Response) -> (result: Result<
        AxiosResponse<serde_json::Value>,
        AxiosError<serde_json::Value>,
    >)
        ensures
            self.answers(res, result),
            self.interceptors.response_handlers@.len() == 0 ==> meets(
                result,
                res.status,
                outcome_of(res.status, res.body@),
            ),
    {
        let seen = self.interceptors.apply_response(res);
        decode_reply(seen.status, seen.body.as_str())
    }

    /// Takes what the transport came back with. A failure of the transport
    /// ends the exchange as it is: no interceptor sees it and nothing is tried
    /// again. A reply goes to `respond`.
    pub fn settle(&self, outcome: Result<Response, reqwest::Error>) -> (result: Result<
        AxiosResponse<serde_json::Value>,
        AxiosError<serde_json::Value>,
    >)
        ensures
            match outcome {
                Ok(res) => self.answers(res, result),
                Err(problem) => result matches Err(AxiosError::ReqwestError(carried)) && carried
                    == problem,
            },
    {
        match outcome {
            Ok(res) => self.respond(res),
            Err(problem) => Err(AxiosError::ReqwestError(problem)),
        }
    }

    /// Prepares a request with the given method for the path `url`, with the
    /// client's headers alone and the payload `data`.
    fn verb(&self, method: HttpMethod, url: &str, data: Option<&serde_json::Value>) -> (prepared:
        Result<Request, AxiosError<serde_json::Value>>)
        ensures
            match prepared {
                Ok(out) => writable(data) && self.sends(
                    method,
                    url@,
                    Map::empty(),
                    body_text(data),
                    out,
                ),
                Err(AxiosError::SerdeError(_)) => !writable(data),
                Err(_) => false,
            },
    {
        let written = match data {
            Some(value) => Some(render(value)),
            None => None,
        };
        self.prepare_verb(method, url, written)
    }

    /// Prepares a `GET` request for the path `url`. It has no body.
    pub fn get(&self, url: &str) -> (prepared: Result<Request, AxiosError<serde_json::Value>>)
        ensures
            prepared matches Ok(out) && self.sends(
                HttpMethod::Get,
                url@,
                Map::empty(),
                None,
                out,
            ),
    {
        self.verb(HttpMethod::Get, url, None)
    }

    /// Prepares a `POST` request for the path `url` with `data` as its body. It
    /// fails exactly when `data` cannot be written as JSON.
    pub fn post(&self, url: &str, data: &serde_json::Value) -> (prepared: Result<
        Request,
        AxiosError<serde_json::Value>,
    >)
        ensures
            match prepared {
                Ok(out) => json_encoded(*data) is Some && self.sends(
                    HttpMethod::Post,
                    url@,
                    Map::empty(),
                    json_encoded(*data),
                    out,
                ),
                Err(AxiosError::SerdeError(_)) => json_encoded(*data) is None,
                Err(_) => false,
            },
    {
        self.verb(HttpMethod::Post, url, Some(data))
    }

    /// Prepares a `PUT` request for the path `url` with `data` as its body. It
    /// fails exactly when `data` cannot be written as JSON.
    pub fn put(&self, url: &str, data: &serde_json::Value) -> (prepared: Result<
        Request,
        AxiosError<serde_json::Value>,
    >)
        ensures
            match prepared {
                Ok(out) => json_encoded(*data) is Some && self.sends(
                    HttpMethod::Put,
                    url@,
                    Map::empty(),
                    json_encoded(*data),
                    out,
                ),
                Err(AxiosError::SerdeError(_)) => json_encoded(*data) is None,
                Err(_) => false,
            },
    {
        self.verb(HttpMethod::Put, url, Some(data))
    }

    /// Prepares a `PATCH` request for the path `url` with `data` as its body.
    /// It fails exactly when `data` cannot be written as JSON.
    pub fn patch(&self, url: &str, data: &serde_json::Value) -> (prepared: Result<
        Request,
        AxiosError<serde_json::Value>,
    >)
        ensures
            match prepared {
                Ok(out) => json_encoded(*data) is Some && self.sends(
                    HttpMethod::Patch,
                    url@,
                    Map::empty(),
                    json_encoded(*data),
                    out,
                ),
                Err(AxiosError::SerdeError(_)) => json_encoded(*data) is None,
                Err(_) => false,
            },
    {
        self.verb(HttpMethod::Patch, url, Some(data))
    }

    /// Prepares a `DELETE` request for the path `url`. It has no body.
    pub fn delete(&self, url: &str) -> (prepared: Result<Request, AxiosError<serde_json::Value>>)
        ensures
            prepared matches Ok(out) && self.sends(
                HttpMethod::Delete,
                url@,
                Map::empty(),
                None,
                out,
            ),
    {
        self.verb(HttpMethod::Delete, url, None)
    }

    /// Prepares an `OPTIONS` request for the path `url`. It has no body.
    pub fn options(&self, url: &str) -> (prepared: Result<Request, AxiosError<serde_json::Value>>)
        ensures
            prepared matches Ok(out) && self.sends(
                HttpMethod::Options,
                url@,
                Map::empty(),
                None,
                out,
            ),
    {
        self.verb(HttpMethod::Options, url, None)
    }

    /// Prepares a `HEAD` request for the path `url`. It has no body.
    pub fn head(&self, url: &str) -> (prepared: Result<Request, AxiosError<serde_json::Value>>)
        ensures
            prepared matches Ok(out) && self.sends(
                HttpMethod::Head,
                url@,
                Map::empty(),
                None,
                out,
            ),
    {
        self.verb(HttpMethod::Head, url, None)
    }

    /// Prepares a `TRACE` request for the path `url`. It has no body.
    pub fn trace(&self, url: &str) -> (prepared: Result<Request, AxiosError<serde_json::Value>>)
        ensures
            prepared matches Ok(out) && self.sends(
                HttpMethod::Trace,
                url@,
                Map::empty(),
                None,
                out,
            ),
    {
        self.verb(HttpMethod::Trace, url, None)
    }

    /// The target of a drafted request is the base followed by the path, letter
    /// for letter: nothing stands between them, and neither is changed.
    pub proof fn lemma_target_is_base_then_path(
        self,
        method: HttpMethod,
        path: Seq<char>,
        own_headers: Map<Seq<char>, Seq<char>>,
        body: Option<Seq<char>>,
    )
        ensures
            ({
                let base = self.config.base_url@;
                let url = self.outgoing(method, path, own_headers, body).url;
                &&& url == base + path
                &&& url.len() == base.len() + path.len()
                &&& url.subrange(0, base.len() as int) == base
                &&& url.subrange(base.len() as int, url.len() as int) == path
            }),
    {
        let base = self.config.base_url@;
        let url = self.outgoing(method, path, own_headers, body).url;
        assert(url.subrange(0, base.len() as int) =~= base);
        assert(url.subrange(base.len() as int, url.len() as int) =~= path);
    }

    /// A drafted request has the headers of the client and those of the
    /// request. Under a name that both have, it carries the value of the
    /// request; under any other name, the only value there is.
    pub proof fn lemma_own_headers_win(
        self,
        method: HttpMethod,
        path: Seq<char>,
        own_headers: Map<Seq<char>, Seq<char>>,
        body: Option<Seq<char>>,
        key: Seq<char>,
    )
        ensures
            ({
                let shared = self.config.headers@;
                let sent = self.outgoing(method, path, own_headers, body).headers;
                &&& sent.contains_key(key) <==> (shared.contains_key(key)
                    || own_headers.contains_key(key))
                &&& own_headers.contains_key(key) ==> sent[key] == own_headers[key]
                &&& shared.contains_key(key) && !own_headers.contains_key(key) ==> sent[key]
                    == shared[key]
            }),
    {
    }
}

impl Clone for Axios {
    /// A client with the same configuration and the interceptors that this one
    /// has now. The copy is a snapshot: a change to the configuration or a
    /// registration made on one of the two afterwards does not reach the other.
    fn clone(&self) -> (copy: Self)
        ensures
            copy.config.base_url@ == self.config.base_url@,
            copy.config.headers@ == self.config.headers@,
            copy.config.timeout == self.config.timeout,
            copy.interceptors.request_handlers@ == self.interceptors.request_handlers@,
            copy.interceptors.response_handlers@ == self.interceptors.response_handlers@,
    {
        Axios { config: self.config.clone(), interceptors: self.interceptors.clone() }
    }
}

impl Default for Axios {
    /// A client with the default configuration and no interceptors.
    fn default() -> (axios: Self)
        ensures
            axios.config.is_initial(),
            axios.interceptors.request_handlers@.len() == 0,
            axios.interceptors.response_handlers@.len() == 0,
    {
        Axios::new()
    }
}

impl From<AxiosConfig> for Axios {
    /// A client with the given configuration and no interceptors.
    fn from(config: AxiosConfig) -> (axios: Self)
        ensures
            axios.config == config,
            axios.interceptors.request_handlers@.len() == 0,
            axios.interceptors.response_handlers@.len() == 0,
    {
        Axios { config, interceptors: InterceptorManager::new() }
    }
}

/// What `from` gives is stated on `from` itself: a client holds lists of
/// interceptors, and no formula writes such a list down.
impl FromSpecImpl<AxiosConfig> for Axios {
    open spec fn obeys_from_spec() -> bool {
        false
    }

    open spec fn from_spec(config: AxiosConfig) -> Self {
        arbitrary()
    }
}

} // verus!
