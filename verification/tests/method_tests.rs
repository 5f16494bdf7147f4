use ruxios::HttpMethod;

#[test]
fn method_tokens_are_read_letter_for_letter() {
    assert_eq!(HttpMethod::string_to_method("GET"), Some(HttpMethod::Get));
    assert_eq!(HttpMethod::string_to_method("POST"), Some(HttpMethod::Post));
    assert_eq!(HttpMethod::string_to_method("PUT"), Some(HttpMethod::Put));
    assert_eq!(HttpMethod::string_to_method("PATCH"), Some(HttpMethod::Patch));
    assert_eq!(HttpMethod::string_to_method("DELETE"), Some(HttpMethod::Delete));
    assert_eq!(HttpMethod::string_to_method("HEAD"), Some(HttpMethod::Head));
    assert_eq!(HttpMethod::string_to_method("OPTIONS"), Some(HttpMethod::Options));
    assert_eq!(HttpMethod::string_to_method("TRACE"), Some(HttpMethod::Trace));
    assert_eq!(HttpMethod::string_to_method("CONNECT"), Some(HttpMethod::Connect));
}

#[test]
fn other_texts_name_no_method() {
    assert_eq!(HttpMethod::string_to_method("get"), None);
    assert_eq!(HttpMethod::string_to_method("Get"), None);
    assert_eq!(HttpMethod::string_to_method(""), None);
    assert_eq!(HttpMethod::string_to_method("GET "), None);
    assert_eq!(HttpMethod::string_to_method("FETCH"), None);
}

#[test]
fn every_method_is_read_back_from_its_token() {
    let all = [
        HttpMethod::Get,
        HttpMethod::Post,
        HttpMethod::Put,
        HttpMethod::Patch,
        HttpMethod::Delete,
        HttpMethod::Head,
        HttpMethod::Options,
        HttpMethod::Trace,
        HttpMethod::Connect,
    ];
    for method in all {
        assert_eq!(HttpMethod::string_to_method(method.as_str()), Some(method));
    }
    assert_eq!(HttpMethod::Delete.as_str(), "DELETE");
}
