use ruxios::{
    AuthMiddleware, Axios, AxiosConfig, Handler, Headers, HttpMethod, InterceptorManager, Request,
    RequestHandler, Response, ResponseHandler,
};

fn request(url: &str) -> Request {
    Request { method: HttpMethod::Get, url: url.to_string(), headers: Headers::new(), body: None }
}

fn reply(status: u16, body: &str) -> Response {
    Response { status, headers: Headers::new(), body: body.to_string() }
}

fn mark(name: &'static str) -> impl Fn(Request) -> Request {
    move |mut req: Request| {
        let chain = match req.headers.get("X-Chain") {
            Some(so_far) => format!("{},{}", so_far, name),
            None => name.to_string(),
        };
        req.headers.insert("X-Chain".to_string(), chain);
        req
    }
}

#[test]
fn new_manager_has_no_interceptors() {
    let manager = InterceptorManager::new();
    assert!(manager.request_handlers.is_empty());
    assert!(manager.response_handlers.is_empty());
    let manager = InterceptorManager::default();
    assert!(manager.request_handlers.is_empty());
    assert!(manager.response_handlers.is_empty());
}

#[test]
fn without_interceptors_messages_pass_unchanged() {
    let manager = InterceptorManager::new();
    let out = manager.apply_request(request("http://x/a"));
    assert_eq!(out.url, "http://x/a");
    assert!(out.headers.is_empty());
    let out = manager.apply_response(reply(201, "{}"));
    assert_eq!(out.status, 201);
    assert_eq!(out.body, "{}");
}

#[test]
fn request_interceptors_run_in_registration_order() {
    let mut manager = InterceptorManager::new();
    manager.request(mark("I1"));
    manager.request(mark("I2"));
    let out = manager.apply_request(request("http://x/a"));
    assert_eq!(out.headers.get("X-Chain"), Some(&"I1,I2".to_string()));
    assert_eq!(manager.request_handlers.len(), 2);
    assert!(manager.response_handlers.is_empty());
}

#[test]
fn registration_order_is_not_reversed() {
    let mut manager = InterceptorManager::new();
    manager.request(mark("I2"));
    manager.request(mark("I1"));
    let out = manager.apply_request(request("http://x/a"));
    assert_eq!(out.headers.get("X-Chain"), Some(&"I2,I1".to_string()));
}

#[test]
fn registering_twice_runs_twice() {
    let mut manager = InterceptorManager::new();
    manager.request(mark("I1"));
    manager.request(mark("I1"));
    manager.request(mark("I2"));
    let out = manager.apply_request(request("http://x/a"));
    assert_eq!(out.headers.get("X-Chain"), Some(&"I1,I1,I2".to_string()));
}

#[test]
fn response_interceptors_run_in_registration_order() {
    let mut manager = InterceptorManager::new();
    manager.response(|mut res: Response| {
        res.body.push_str("a");
        res
    });
    manager.response(|mut res: Response| {
        res.body.push_str("b");
        res.status = res.status + 1;
        res
    });
    let out = manager.apply_response(reply(200, ""));
    assert_eq!(out.body, "ab");
    assert_eq!(out.status, 201);
    assert_eq!(manager.response_handlers.len(), 2);
    assert!(manager.request_handlers.is_empty());
}

#[test]
fn handler_executes_its_function() {
    let handler: RequestHandler = Handler::new(|mut req: Request| {
        req.url.push_str("?seen");
        req
    });
    assert_eq!(handler.execute(request("http://x/a")).url, "http://x/a?seen");
    let handler: ResponseHandler = Handler::new(|mut res: Response| {
        res.status = 418;
        res
    });
    assert_eq!(handler.execute(reply(200, "")).status, 418);
}

#[test]
fn client_hands_the_draft_through_the_interceptors() {
    let mut axios = Axios::from(AxiosConfig {
        base_url: "http://x".to_string(),
        headers: Headers::new(),
        timeout: 10000,
    });
    axios.interceptors.request(mark("I1"));
    axios.interceptors.request(|mut req: Request| {
        req.url.push_str("?v=1");
        req
    });
    axios.interceptors.request(mark("I2"));
    let out = axios.get("/a").unwrap();
    assert_eq!(out.url, "http://x/a?v=1");
    assert_eq!(out.headers.get("X-Chain"), Some(&"I1,I2".to_string()));
}

#[test]
fn interceptors_see_the_merged_headers() {
    let mut axios = Axios::new();
    axios.config.headers.insert("X-Chain".to_string(), "cfg".to_string());
    axios.interceptors.request(mark("I1"));
    let out = axios.get("/a").unwrap();
    assert_eq!(out.headers.get("X-Chain"), Some(&"cfg,I1".to_string()));
}

#[test]
fn auth_middleware_passes_the_request_on() {
    let mut req = request("http://x/a");
    req.headers.insert("X".to_string(), "1".to_string());
    req.body = Some("{}".to_string());
    let out = AuthMiddleware.handle(req);
    assert_eq!(out.method, HttpMethod::Get);
    assert_eq!(out.url, "http://x/a");
    assert_eq!(out.headers.to_pairs(), vec![("X".to_string(), "1".to_string())]);
    assert_eq!(out.body, Some("{}".to_string()));
}

#[test]
fn auth_middleware_registers_as_an_interceptor() {
    let mut manager = InterceptorManager::new();
    manager.request(|req: Request| AuthMiddleware.handle(req));
    manager.request(mark("I1"));
    let out = manager.apply_request(request("http://x/a"));
    assert_eq!(out.url, "http://x/a");
    assert_eq!(out.headers.get("X-Chain"), Some(&"I1".to_string()));
}

fn shareable<T: Send + Sync + Clone>() {}

#[test]
fn client_can_be_shared_and_copied() {
    shareable::<Axios>();
    shareable::<InterceptorManager>();
    shareable::<RequestHandler>();
    shareable::<ResponseHandler>();
}

#[test]
fn clone_is_a_snapshot_of_the_interceptors() {
    let mut axios = Axios::from(AxiosConfig {
        base_url: "http://x".to_string(),
        headers: Headers::new(),
        timeout: 10000,
    });
    axios.interceptors.request(mark("I1"));
    let mut copy = axios.clone();
    assert_eq!(copy.config.base_url, "http://x");
    copy.interceptors.request(mark("I2"));
    copy.config.base_url = "http://y".to_string();
    axios.interceptors.request(mark("I3"));

    let out = axios.get("/a").unwrap();
    assert_eq!(out.url, "http://x/a");
    assert_eq!(out.headers.get("X-Chain"), Some(&"I1,I3".to_string()));
    let out = copy.get("/a").unwrap();
    assert_eq!(out.url, "http://y/a");
    assert_eq!(out.headers.get("X-Chain"), Some(&"I1,I2".to_string()));
}

#[test]
fn handler_clone_runs_the_same_function() {
    let handler: RequestHandler = Handler::new(mark("I1"));
    let copy = handler.clone();
    let out = copy.execute(handler.execute(request("http://x/a")));
    assert_eq!(out.headers.get("X-Chain"), Some(&"I1,I1".to_string()));
}
