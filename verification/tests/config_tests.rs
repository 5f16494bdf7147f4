use ruxios::{Axios, AxiosConfig, AxiosRequestConfig, Headers};

#[test]
fn default_config_has_no_base_and_ten_seconds() {
    let config = AxiosConfig::new();
    assert_eq!(config.base_url, "");
    assert!(config.headers.is_empty());
    assert_eq!(config.timeout, 10000);
    let config = AxiosConfig::default();
    assert_eq!(config.base_url, "");
    assert!(config.headers.is_empty());
    assert_eq!(config.timeout, 10000);
}

#[test]
fn config_clone_is_independent() {
    let mut config = AxiosConfig::new();
    config.base_url = "http://x".to_string();
    config.headers.insert("X".to_string(), "1".to_string());
    config.timeout = 5;
    let mut copy = config.clone();
    assert_eq!(copy.base_url, "http://x");
    assert_eq!(copy.headers.get("X"), Some(&"1".to_string()));
    assert_eq!(copy.timeout, 5);
    copy.headers.insert("X".to_string(), "2".to_string());
    assert_eq!(config.headers.get("X"), Some(&"1".to_string()));
}

#[test]
fn default_request_config_asks_for_get() {
    let cfg = AxiosRequestConfig::default();
    assert_eq!(cfg.url, "");
    assert_eq!(cfg.method, Some("GET".to_string()));
    assert!(cfg.headers.is_none());
}

#[test]
fn new_client_has_default_config_and_no_interceptors() {
    let axios = Axios::new();
    assert_eq!(axios.config.base_url, "");
    assert_eq!(axios.config.timeout, 10000);
    assert!(axios.interceptors.request_handlers.is_empty());
    assert!(axios.interceptors.response_handlers.is_empty());
    let axios = Axios::default();
    assert_eq!(axios.config.base_url, "");
    assert!(axios.interceptors.request_handlers.is_empty());
}

#[test]
fn client_from_config_keeps_the_config() {
    let mut headers = Headers::new();
    headers.insert("Accept".to_string(), "application/json".to_string());
    let config = AxiosConfig { base_url: "https://api.test".to_string(), headers, timeout: 250 };
    let axios = Axios::from(config);
    assert_eq!(axios.config.base_url, "https://api.test");
    assert_eq!(axios.config.timeout, 250);
    assert_eq!(axios.config.headers.get("Accept"), Some(&"application/json".to_string()));
    assert!(axios.interceptors.request_handlers.is_empty());
    assert!(axios.interceptors.response_handlers.is_empty());
}
