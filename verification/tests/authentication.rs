use rest_client::{Client, EmptyResponse, Error, HttpCall, Method, Payload, Request};

struct EmptyHello;

impl Request for EmptyHello {
    type Body = ();
    type Response = EmptyResponse;

    fn endpoint(&self) -> String {
        "/hello".into()
    }
}

const SERVER: &str = "http://localhost:8080";

fn header<'a>(call: &'a HttpCall, name: &str) -> Vec<&'a str> {
    call.headers
        .iter()
        .filter(|(n, _)| n.eq_ignore_ascii_case(name))
        .map(|(_, v)| v.as_str())
        .collect()
}

fn pair(key: &str, value: &str) -> (String, String) {
    (key.to_string(), value.to_string())
}

fn no_pairs(_: &()) -> Result<Vec<(String, String)>, String> {
    Err("not a sequence of pairs".to_string())
}

fn no_json(_: &()) -> Result<String, String> {
    Err("not a document".to_string())
}

#[test]
fn basic_auth() {
    let client = Client::new(SERVER).basic_auth("user".into(), "pass".into());
    let call = client.format_request(&EmptyHello, no_pairs, no_json).unwrap();
    assert_eq!(call.method, Method::Get);
    assert_eq!(call.url, "http://localhost:8080/hello");
    // user:pass in base64
    assert_eq!(header(&call, "Authorization"), vec!["Basic dXNlcjpwYXNz"]);
}

#[test]
fn bearer_auth() {
    let client = Client::new(SERVER).bearer_auth("PASSWORD".into());
    let call = client.format_request(&EmptyHello, no_pairs, no_json).unwrap();
    assert_eq!(call.method, Method::Get);
    assert_eq!(call.url, "http://localhost:8080/hello");
    assert_eq!(header(&call, "Authorization"), vec!["Bearer PASSWORD"]);
}

#[test]
fn header_auth() {
    let auth = vec![("key", "k"), ("secret", "s")];
    let client = Client::new(SERVER).header_auth(auth);
    let call = client.format_request(&EmptyHello, no_pairs, no_json).unwrap();
    assert_eq!(call.method, Method::Get);
    assert_eq!(call.url, "http://localhost:8080/hello");
    assert_eq!(header(&call, "key"), vec!["k"]);
    assert_eq!(header(&call, "secret"), vec!["s"]);
}

#[test]
fn query_auth() {
    let auth = vec![("key", "k"), ("secret", "s")];
    let client = Client::new(SERVER).query_auth(auth);
    let call = client.format_request(&EmptyHello, no_pairs, no_json).unwrap();
    assert_eq!(call.method, Method::Get);
    assert_eq!(call.url, "http://localhost:8080/hello");
    assert_eq!(call.query, vec![pair("key", "k"), pair("secret", "s")]);
}

#[test]
fn no_auth_adds_nothing() {
    let client = Client::new(SERVER);
    let call = client.format_request(&EmptyHello, no_pairs, no_json).unwrap();
    assert!(call.headers.is_empty());
    assert!(call.query.is_empty());
    assert_eq!(call.body, None);
}

#[test]
fn later_auth_replaces_earlier() {
    let client = Client::new(SERVER)
        .bearer_auth("first")
        .query_auth(vec![("key", "k")]);
    let call = client.format_request(&EmptyHello, no_pairs, no_json).unwrap();
    assert!(call.headers.is_empty());
    assert_eq!(call.query, vec![pair("key", "k")]);
}

#[test]
fn base_url_is_kept() {
    assert_eq!(Client::new(SERVER).basic_auth("u", "p").base_url(), SERVER);
}

#[test]
fn basic_auth_with_empty_password() {
    let call = HttpCall::new(Method::Get, "http://h/".to_string())
        .basic_auth("Aladdin", "")
        .unwrap();
    assert_eq!(header(&call, "authorization"), vec!["Basic QWxhZGRpbjo="]);
}

#[test]
fn basic_auth_encodes_utf8() {
    let call = HttpCall::new(Method::Get, "http://h/".to_string())
        .basic_auth("Aladdin", "open sesame")
        .unwrap();
    assert_eq!(
        header(&call, "authorization"),
        vec!["Basic QWxhZGRpbjpvcGVuIHNlc2FtZQ=="]
    );
    let call = HttpCall::new(Method::Get, "http://h/".to_string())
        .basic_auth("jos\u{e9}", "\u{fc}ber")
        .unwrap();
    assert_eq!(header(&call, "authorization"), vec!["Basic am9zw6k6w7xiZXI="]);
}

#[test]
fn basic_credentials_are_taken_as_given() {
    let call = HttpCall::new(Method::Get, "http://h/".to_string())
        .basic_credentials("abc")
        .unwrap();
    assert_eq!(call.headers, vec![pair("authorization", "Basic abc")]);
    let refused = HttpCall::new(Method::Get, "http://h/".to_string()).basic_credentials("a\nb");
    assert_eq!(refused, Err(Error::BuildError("authorization".to_string())));
}

#[test]
fn bearer_token_with_line_break_is_refused() {
    let client = Client::new(SERVER).bearer_auth("PASS\r\nWORD");
    let refused = client.format_request(&EmptyHello, no_pairs, no_json);
    assert_eq!(refused, Err(Error::BuildError("authorization".to_string())));
}

#[test]
fn bearer_token_may_hold_tab_and_non_ascii() {
    let call = HttpCall::new(Method::Get, "http://h/".to_string())
        .bearer_auth("a\tb \u{e9}")
        .unwrap();
    assert_eq!(header(&call, "authorization"), vec!["Bearer a\tb \u{e9}"]);
    let refused = HttpCall::new(Method::Get, "http://h/".to_string()).bearer_auth("a\u{7f}");
    assert_eq!(refused, Err(Error::BuildError("authorization".to_string())));
}

#[test]
fn authorization_is_added_behind_request_headers() {
    let mut call = HttpCall::new(Method::Get, "http://h/".to_string());
    call.append_header("Authorization".to_string(), "Custom x".to_string());
    let call = call.bearer_auth("t").unwrap();
    assert_eq!(
        call.headers,
        vec![pair("Authorization", "Custom x"), pair("authorization", "Bearer t")]
    );
}

#[test]
fn header_auth_replaces_request_headers_of_the_same_name() {
    let client = Client::new(SERVER).header_auth(vec![("X-Key", "new"), ("other", "o")]);
    let headers = vec![pair("a", "1"), pair("x-key", "old"), pair("b", "2")];
    let call = client
        .assemble(Method::Get, "hello", headers, Payload::Empty)
        .unwrap();
    assert_eq!(
        call.headers,
        vec![pair("a", "1"), pair("b", "2"), pair("X-Key", "new"), pair("other", "o")]
    );
}

#[test]
fn header_auth_keeps_the_later_of_two_equal_names() {
    let client = Client::new(SERVER).header_auth(vec![("key", "one"), ("KEY", "two")]);
    let call = client.format_request(&EmptyHello, no_pairs, no_json).unwrap();
    assert_eq!(call.headers, vec![pair("KEY", "two")]);
}

#[test]
fn header_auth_with_bad_name_or_value_is_refused() {
    let client = Client::new(SERVER).header_auth(vec![("good", "v"), ("bad name", "v")]);
    assert_eq!(
        client.format_request(&EmptyHello, no_pairs, no_json),
        Err(Error::BuildError("bad name".to_string()))
    );
    let client = Client::new(SERVER).header_auth(vec![("first", "line\nbreak"), ("", "v")]);
    assert_eq!(
        client.format_request(&EmptyHello, no_pairs, no_json),
        Err(Error::BuildError("first".to_string()))
    );
}

#[test]
fn query_auth_comes_behind_body_pairs() {
    let client = Client::new(SERVER).query_auth(vec![("key", "k"), ("name", "auth")]);
    let body = Payload::Query(vec![pair("name", "Sebastian"), pair("size", "3")]);
    let call = client
        .assemble(Method::Get, "/hello", Vec::new(), body)
        .unwrap();
    assert_eq!(
        call.query,
        vec![
            pair("name", "Sebastian"),
            pair("size", "3"),
            pair("key", "k"),
            pair("name", "auth")
        ]
    );
}
