use ruxios::{Axios, AxiosConfig, AxiosError, AxiosRequestConfig, Headers, HttpMethod, Request};

fn client(base: &str) -> Axios {
    Axios::from(AxiosConfig { base_url: base.to_string(), headers: Headers::new(), timeout: 10000 })
}

fn spec(url: &str) -> AxiosRequestConfig {
    AxiosRequestConfig { url: url.to_string(), method: None, headers: None }
}

fn object(members: Vec<(&str, serde_json::Value)>) -> serde_json::Value {
    let mut map = serde_json::Map::new();
    for (key, value) in members {
        map.insert(key.to_string(), value);
    }
    serde_json::Value::Object(map)
}

fn text(value: &str) -> serde_json::Value {
    serde_json::Value::String(value.to_string())
}

#[test]
fn target_is_base_then_path() {
    let out = client("http://x").request(spec("/a"), None).unwrap();
    assert_eq!(out.url, "http://x/a");
    let out = client("http://x/").request(spec("a"), None).unwrap();
    assert_eq!(out.url, "http://x/a");
}

#[test]
fn target_is_never_normalised() {
    let out = client("http://x/").request(spec("/a"), None).unwrap();
    assert_eq!(out.url, "http://x//a");
    let out = client("http://x").request(spec("a"), None).unwrap();
    assert_eq!(out.url, "http://xa");
    let out = client("http://x/p q").request(spec("?k=v w"), None).unwrap();
    assert_eq!(out.url, "http://x/p q?k=v w");
}

#[test]
fn empty_path_gives_the_base() {
    let out = client("http://x").request(spec(""), None).unwrap();
    assert_eq!(out.url, "http://x");
    let out = client("").request(spec(""), None).unwrap();
    assert_eq!(out.url, "");
}

#[test]
fn request_headers_win_over_config_headers() {
    let mut axios = client("http://x");
    axios.config.headers.insert("X".to_string(), "1".to_string());
    axios.config.headers.insert("Only-Config".to_string(), "c".to_string());
    let mut own = Headers::new();
    own.insert("X".to_string(), "2".to_string());
    own.insert("Only-Request".to_string(), "r".to_string());
    let cfg = AxiosRequestConfig { url: "/a".to_string(), method: None, headers: Some(own) };
    let out = axios.request(cfg, None).unwrap();
    assert_eq!(out.headers.get("X"), Some(&"2".to_string()));
    assert_eq!(out.headers.get("Only-Config"), Some(&"c".to_string()));
    assert_eq!(out.headers.get("Only-Request"), Some(&"r".to_string()));
    assert_eq!(out.headers.len(), 3);
    assert_eq!(axios.config.headers.get("X"), Some(&"1".to_string()));
}

#[test]
fn config_headers_go_out_when_the_request_has_none() {
    let mut axios = client("http://x");
    axios.config.headers.insert("X".to_string(), "1".to_string());
    let out = axios.request(spec("/a"), None).unwrap();
    assert_eq!(out.headers.to_pairs(), vec![("X".to_string(), "1".to_string())]);
}

#[test]
fn method_defaults_to_get() {
    let out = client("http://x").request(spec("/a"), None).unwrap();
    assert_eq!(out.method, HttpMethod::Get);
    assert_eq!(out.body, None);
}

#[test]
fn method_token_is_used() {
    let cfg = AxiosRequestConfig {
        url: "/a".to_string(),
        method: Some("CONNECT".to_string()),
        headers: None,
    };
    let out = client("http://x").request(cfg, None).unwrap();
    assert_eq!(out.method, HttpMethod::Connect);
}

#[test]
fn unknown_method_fails_fast() {
    let cfg =
        AxiosRequestConfig { url: "/a".to_string(), method: Some("get".to_string()), headers: None };
    match client("http://x").request(cfg, None) {
        Err(AxiosError::UnknownMethod(token)) => assert_eq!(token, "get"),
        other => panic!("expected an unknown method, got {:?}", other),
    }
}

#[test]
fn unknown_method_is_reported_before_the_body() {
    let cfg = AxiosRequestConfig {
        url: "/a".to_string(),
        method: Some("FETCH".to_string()),
        headers: None,
    };
    let body = object(vec![("name", text("b"))]);
    match client("http://x").request(cfg, Some(&body)) {
        Err(AxiosError::UnknownMethod(token)) => assert_eq!(token, "FETCH"),
        other => panic!("expected an unknown method, got {:?}", other),
    }
}

#[test]
fn unknown_method_keeps_interceptors_from_running() {
    let mut axios = client("http://x");
    axios.interceptors.request(|_req: Request| -> Request { panic!("must not run") });
    let cfg =
        AxiosRequestConfig { url: "/a".to_string(), method: Some("Post".to_string()), headers: None };
    assert!(matches!(axios.request(cfg, None), Err(AxiosError::UnknownMethod(_))));
}

#[test]
fn body_is_written_as_json() {
    let body = object(vec![("name", text("b"))]);
    let cfg =
        AxiosRequestConfig { url: "/users".to_string(), method: Some("POST".to_string()), headers: None };
    let out = client("http://x").request(cfg, Some(&body)).unwrap();
    assert_eq!(out.body, Some("{\"name\":\"b\"}".to_string()));
    assert_eq!(out.method, HttpMethod::Post);
}

#[test]
fn draft_takes_the_written_body() {
    let axios = client("http://x");
    let out = axios.draft(spec("/a"), Some(Ok("[1,2]".to_string()))).unwrap();
    assert_eq!(out.body, Some("[1,2]".to_string()));
    assert_eq!(out.url, "http://x/a");
    assert_eq!(out.method, HttpMethod::Get);
    let out = axios.draft(spec("/a"), None).unwrap();
    assert_eq!(out.body, None);
}

#[test]
fn draft_hands_a_writing_failure_on() {
    let axios = client("http://x");
    let problem = serde_json::from_str::<serde_json::Value>("{").unwrap_err();
    let message = problem.to_string();
    match axios.draft(spec("/a"), Some(Err(problem))) {
        Err(AxiosError::SerdeError(carried)) => assert_eq!(carried.to_string(), message),
        other => panic!("expected a writing failure, got {:?}", other),
    }
}

#[test]
fn draft_reports_the_method_before_the_writing_failure() {
    let axios = client("http://x");
    let problem = serde_json::from_str::<serde_json::Value>("{").unwrap_err();
    let cfg =
        AxiosRequestConfig { url: "/a".to_string(), method: Some("nope".to_string()), headers: None };
    assert!(matches!(axios.draft(cfg, Some(Err(problem))), Err(AxiosError::UnknownMethod(_))));
}

#[test]
fn verbs_preset_the_method() {
    let axios = client("https://api.test");
    let body = object(vec![("name", text("b"))]);
    let written = Some("{\"name\":\"b\"}".to_string());

    let out = axios.get("/r").unwrap();
    assert_eq!((out.method, out.url.as_str(), out.body), (HttpMethod::Get, "https://api.test/r", None));
    let out = axios.delete("/r").unwrap();
    assert_eq!((out.method, out.url.as_str(), out.body), (HttpMethod::Delete, "https://api.test/r", None));
    let out = axios.options("/r").unwrap();
    assert_eq!((out.method, out.url.as_str(), out.body), (HttpMethod::Options, "https://api.test/r", None));
    let out = axios.head("/r").unwrap();
    assert_eq!((out.method, out.url.as_str(), out.body), (HttpMethod::Head, "https://api.test/r", None));
    let out = axios.trace("/r").unwrap();
    assert_eq!((out.method, out.url.as_str(), out.body), (HttpMethod::Trace, "https://api.test/r", None));

    let out = axios.post("/r", &body).unwrap();
    assert_eq!((out.method, out.url.as_str()), (HttpMethod::Post, "https://api.test/r"));
    assert_eq!(out.body, written);
    let out = axios.put("/r", &body).unwrap();
    assert_eq!((out.method, out.url.as_str()), (HttpMethod::Put, "https://api.test/r"));
    assert_eq!(out.body, written);
    let out = axios.patch("/r", &body).unwrap();
    assert_eq!((out.method, out.url.as_str()), (HttpMethod::Patch, "https://api.test/r"));
    assert_eq!(out.body, written);
}

#[test]
fn verbs_carry_the_config_headers() {
    let mut axios = client("https://api.test");
    axios.config.headers.insert("X".to_string(), "1".to_string());
    let out = axios.get("/r").unwrap();
    assert_eq!(out.headers.get("X"), Some(&"1".to_string()));
    assert_eq!(out.headers.len(), 1);
}

#[test]
fn request_clone_says_the_same() {
    let body = object(vec![("name", text("b"))]);
    let out = client("http://x").post("/a", &body).unwrap();
    let copy = out.clone();
    assert_eq!(copy.method, out.method);
    assert_eq!(copy.url, out.url);
    assert_eq!(copy.body, out.body);
    assert_eq!(copy.headers.to_pairs(), out.headers.to_pairs());
}

#[test]
fn prepare_takes_the_written_body_through_the_interceptors() {
    let mut axios = client("http://x");
    axios.interceptors.request(|mut req: Request| {
        req.url.push_str("?seen");
        req
    });
    let cfg =
        AxiosRequestConfig { url: "/a".to_string(), method: Some("PUT".to_string()), headers: None };
    let out = axios.prepare(cfg, Some(Ok("{\"k\":1}".to_string()))).unwrap();
    assert_eq!(out.method, HttpMethod::Put);
    assert_eq!(out.url, "http://x/a?seen");
    assert_eq!(out.body, Some("{\"k\":1}".to_string()));
    let out = axios.prepare(spec("/b"), None).unwrap();
    assert_eq!(out.url, "http://x/b?seen");
    assert_eq!(out.body, None);
}

#[test]
fn prepare_reports_the_method_before_the_writing_failure() {
    let axios = client("http://x");
    let problem = serde_json::from_str::<serde_json::Value>("{").unwrap_err();
    let cfg =
        AxiosRequestConfig { url: "/a".to_string(), method: Some("nope".to_string()), headers: None };
    match axios.prepare(cfg, Some(Err(problem))) {
        Err(AxiosError::UnknownMethod(token)) => assert_eq!(token, "nope"),
        other => panic!("expected an unknown method, got {:?}", other),
    }
}

#[test]
fn prepare_hands_a_writing_failure_on() {
    let mut axios = client("http://x");
    axios.interceptors.request(|_req: Request| -> Request { panic!("must not run") });
    let problem = serde_json::from_str::<serde_json::Value>("{").unwrap_err();
    let message = problem.to_string();
    match axios.prepare(spec("/a"), Some(Err(problem))) {
        Err(AxiosError::SerdeError(carried)) => assert_eq!(carried.to_string(), message),
        other => panic!("expected a writing failure, got {:?}", other),
    }
}

#[test]
fn prepare_verb_presets_the_method() {
    let mut axios = client("https://api.test");
    axios.config.headers.insert("X".to_string(), "1".to_string());
    let out = axios
        .prepare_verb(HttpMethod::Patch, "/r", Some(Ok("{\"b\":2,\"a\":1}".to_string())))
        .unwrap();
    assert_eq!(out.method, HttpMethod::Patch);
    assert_eq!(out.url, "https://api.test/r");
    assert_eq!(out.body, Some("{\"b\":2,\"a\":1}".to_string()));
    assert_eq!(out.headers.to_pairs(), vec![("X".to_string(), "1".to_string())]);
    let out = axios.prepare_verb(HttpMethod::Connect, "/r", None).unwrap();
    assert_eq!(out.method, HttpMethod::Connect);
    assert_eq!(out.body, None);
    let problem = serde_json::from_str::<serde_json::Value>("").unwrap_err();
    assert!(matches!(
        axios.prepare_verb(HttpMethod::Post, "/r", Some(Err(problem))),
        Err(AxiosError::SerdeError(_))
    ));
}

#[test]
fn a_payload_that_can_be_written_is_always_prepared() {
    let axios = client("http://x");
    let payloads = vec![
        serde_json::Value::Null,
        serde_json::Value::Bool(true),
        text(""),
        serde_json::Value::Array(vec![]),
        object(vec![]),
    ];
    let written = vec!["null", "true", "\"\"", "[]", "{}"];
    for (payload, expected) in payloads.iter().zip(written) {
        assert_eq!(axios.post("/a", payload).unwrap().body, Some(expected.to_string()));
        assert_eq!(axios.put("/a", payload).unwrap().body, Some(expected.to_string()));
        assert_eq!(axios.patch("/a", payload).unwrap().body, Some(expected.to_string()));
    }
}
