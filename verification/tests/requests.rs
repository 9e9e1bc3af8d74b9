use rest_client::{
    Client, EmptyResponse, Error, Exchange, HttpCall, Method, Payload, Request, RequestBody,
};

struct EmptyHello;

impl Request for EmptyHello {
    type Body = ();
    type Response = EmptyResponse;

    fn endpoint(&self) -> String {
        "/hello".into()
    }
}

struct QueryHello {
    name: String,
}

#[derive(Debug, PartialEq)]
struct NameGreeting {
    message: String,
}

impl Request for QueryHello {
    type Body = Self;
    type Response = NameGreeting;

    fn endpoint(&self) -> String {
        "/hello".into()
    }

    fn body(&self) -> RequestBody<&Self> {
        RequestBody::Query(self)
    }
}

struct PostGreeting {
    text: String,
}

impl Request for PostGreeting {
    type Body = String;
    type Response = NameGreeting;
    const METHOD: Method = Method::Post;

    fn endpoint(&self) -> String {
        "greetings/".into()
    }

    fn headers(&self) -> Vec<(String, String)> {
        vec![pair("accept", "application/json")]
    }

    fn body(&self) -> RequestBody<&String> {
        RequestBody::Json(&self.text)
    }
}

const SERVER: &str = "http://localhost:8080";

fn pair(key: &str, value: &str) -> (String, String) {
    (key.to_string(), value.to_string())
}

fn hello_pairs(hello: &QueryHello) -> Result<Vec<(String, String)>, String> {
    Ok(vec![pair("name", &hello.name)])
}

fn hello_json(hello: &QueryHello) -> Result<String, String> {
    Ok(format!("{{\"name\":\"{}\"}}", hello.name))
}

fn no_pairs<T>(_: T) -> Result<Vec<(String, String)>, String> {
    Err("not a sequence of pairs".to_string())
}

fn quoted(text: &String) -> Result<String, String> {
    Ok(format!("\"{}\"", text))
}

// Stands in for the server of the greeting service: answers a call for
// `/hello` with a greeting for the `name` of its query.
fn greet(call: &HttpCall) -> Exchange {
    assert_eq!(call.method, Method::Get);
    assert_eq!(call.url, "http://localhost:8080/hello");
    let name = call
        .query
        .iter()
        .find(|(k, _)| k == "name")
        .map(|(_, v)| v.clone())
        .unwrap();
    Exchange::Answered(200, format!("Hello, {}!", name))
}

fn greeting(body: String) -> Result<NameGreeting, String> {
    Ok(NameGreeting { message: body })
}

fn send(client: &Client, request: &QueryHello) -> Result<NameGreeting, Error> {
    client.send(request, hello_pairs, hello_json, |call| greet(&call), greeting)
}

#[test]
fn empty_response() {
    let client = Client::new(SERVER);
    let payload = EmptyHello.body().encode(no_pairs, no_pairs_as_json).unwrap();
    assert_eq!(payload, Payload::Empty);
    let call = client
        .format_request(&EmptyHello, no_pairs, no_pairs_as_json)
        .unwrap();
    assert_eq!(call.body, None);
    assert!(call.query.is_empty());
    assert_eq!(call.method, Method::Get);
    assert_eq!(call.url, "http://localhost:8080/hello");
    let response =
        rest_client::response::receive(Exchange::Answered(200, String::new()), EmptyResponse::decode);
    assert_eq!(response, Ok(EmptyResponse));
}

// An encoder that would give a pair, were it asked.
fn hello_pairs_of_nothing(_: &()) -> Result<Vec<(String, String)>, String> {
    Ok(vec![pair("never", "asked")])
}

fn no_pairs_as_json<T>(_: T) -> Result<String, String> {
    Err("not a document".to_string())
}

#[test]
fn query() {
    let client = Client::new(SERVER);
    let request = QueryHello {
        name: "Sebastian".into(),
    };
    let call = client
        .format_request(&request, hello_pairs, hello_json)
        .unwrap();
    assert_eq!(call.method, Method::Get);
    assert_eq!(call.url, "http://localhost:8080/hello");
    assert_eq!(call.query, vec![pair("name", "Sebastian")]);

    let response = send(&client, &request).unwrap();
    assert_eq!(
        response,
        NameGreeting {
            message: "Hello, Sebastian!".into(),
        }
    );
}

#[test]
fn query_multiple() {
    let client = Client::new(SERVER);
    let reqs = vec![
        QueryHello {
            name: "Sebastian".into(),
        },
        QueryHello {
            name: "Jessica".into(),
        },
    ];

    let mut batch = client.send_all(reqs.iter().collect());
    for position in 0..reqs.len() {
        assert!(batch.send(position, hello_pairs, hello_json, |call| greet(&call), greeting));
    }
    assert_eq!(
        batch.next().unwrap().unwrap(),
        NameGreeting {
            message: "Hello, Sebastian!".into(),
        }
    );
    assert_eq!(
        batch.next().unwrap().unwrap(),
        NameGreeting {
            message: "Hello, Jessica!".into(),
        }
    );
    assert!(batch.next().is_none());
    assert!(batch.is_finished());
}

#[test]
fn empty_body_carries_no_payload_and_no_pairs() {
    let body: RequestBody<&QueryHello> = RequestBody::Empty;
    let payload = body.encode(hello_pairs, hello_json).unwrap();
    assert_eq!(payload, Payload::Empty);
    let client = Client::new(SERVER);
    let call = client
        .format_request(&EmptyHello, hello_pairs_of_nothing, no_pairs_as_json)
        .unwrap();
    assert_eq!(call.body, None);
    assert!(call.query.is_empty());
    assert!(call.headers.is_empty());
}

#[test]
fn default_body_is_empty() {
    let body: RequestBody<u8> = RequestBody::default();
    assert!(matches!(body, RequestBody::Empty));
    assert!(matches!(EmptyHello.body(), RequestBody::Empty));
    assert!(EmptyHello.headers().is_empty());
    assert_eq!(EmptyHello::METHOD, Method::Get);
}

#[test]
fn query_body_gives_exactly_its_pairs_in_order() {
    let pairs = vec![pair("b", "2"), pair("a", "1"), pair("b", "3")];
    let given = pairs.clone();
    let body = RequestBody::Query(7u8);
    let payload = body
        .encode(move |_| Ok(given), |_| Err("unused".to_string()))
        .unwrap();
    assert_eq!(payload, Payload::Query(pairs.clone()));
    let call = Client::new(SERVER)
        .assemble(Method::Get, "hello", Vec::new(), payload)
        .unwrap();
    assert_eq!(call.query, pairs);
    assert_eq!(call.body, None);
    let request = QueryHello {
        name: "a&b=c d".into(),
    };
    let call = Client::new(SERVER)
        .format_request(&request, hello_pairs, hello_json)
        .unwrap();
    assert_eq!(call.query, vec![pair("name", "a&b=c d")]);
}

#[test]
fn json_body_becomes_the_payload() {
    let request = PostGreeting {
        text: "hi".to_string(),
    };
    let payload = request.body().encode(no_pairs, quoted).unwrap();
    assert_eq!(payload, Payload::Json("\"hi\"".to_string()));
    let call = Client::new(SERVER)
        .format_request(&request, no_pairs, quoted)
        .unwrap();
    assert_eq!(call.method, Method::Post);
    assert_eq!(call.url, "http://localhost:8080/greetings");
    assert_eq!(call.body, Some("\"hi\"".to_string()));
    assert!(call.query.is_empty());
    assert_eq!(
        call.headers,
        vec![
            pair("accept", "application/json"),
            pair("content-type", "application/json")
        ]
    );
}

#[test]
fn json_body_keeps_a_content_type_that_is_there() {
    let mut call = HttpCall::new(Method::Put, "http://h/x".to_string());
    call.append_header("Content-Type".to_string(), "application/vnd.api+json".to_string());
    let call = call.request_body(Payload::Json("{}".to_string()));
    assert_eq!(
        call.headers,
        vec![pair("Content-Type", "application/vnd.api+json")]
    );
    assert_eq!(call.body, Some("{}".to_string()));
}

#[test]
fn encoder_failure_is_a_build_error() {
    let body = RequestBody::Query(1u8);
    assert_eq!(
        body.encode(no_pairs, no_pairs_as_json),
        Err(Error::BuildError("not a sequence of pairs".to_string()))
    );
    let body = RequestBody::Json(1u8);
    assert_eq!(
        body.encode(no_pairs, no_pairs_as_json),
        Err(Error::BuildError("not a document".to_string()))
    );
}

#[test]
fn encoder_failure_refuses_the_request() {
    let request = QueryHello { name: "x".into() };
    let refused = Client::new(SERVER).format_request(&request, no_pairs, hello_json);
    assert_eq!(
        refused,
        Err(Error::BuildError("not a sequence of pairs".to_string()))
    );
}

#[test]
fn endpoint_slashes_are_trimmed() {
    let client = Client::new("http://example.com/api");
    let url = |endpoint: &str| {
        client
            .assemble(Method::Get, endpoint, Vec::new(), Payload::Empty)
            .unwrap()
            .url
    };
    assert_eq!(url("/v1/passenger"), "http://example.com/api/v1/passenger");
    assert_eq!(url("v1/passenger"), "http://example.com/api/v1/passenger");
    assert_eq!(url("///v1//passenger///"), "http://example.com/api/v1//passenger");
    assert_eq!(url(""), "http://example.com/api/");
    assert_eq!(url("////"), "http://example.com/api/");
    assert_eq!(rest_client::text::trim_slashes("/\u{e9}t\u{e9}/"), "\u{e9}t\u{e9}");
    assert_eq!(
        rest_client::text::join_url("http://h/", "/x/"),
        "http://h//x"
    );
}

#[test]
fn url_that_cannot_be_parsed_is_a_build_error() {
    let refused = Client::new("not a url").format_request(&EmptyHello, no_pairs, no_pairs_as_json);
    assert_eq!(refused, Err(Error::BuildError("not a url/hello".to_string())));
    // parses, but has no host
    let refused =
        Client::new("mailto:someone").format_request(&EmptyHello, no_pairs, no_pairs_as_json);
    assert_eq!(
        refused,
        Err(Error::BuildError("mailto:someone/hello".to_string()))
    );
    let refused = Client::new("").format_request(&EmptyHello, no_pairs, no_pairs_as_json);
    assert_eq!(refused, Err(Error::BuildError("/hello".to_string())));
}

#[test]
fn compose_goes_by_the_answer_of_the_parser() {
    let client = Client::new(SERVER);
    let call = client
        .compose(Method::Get, "anything".to_string(), true, Vec::new(), Payload::Empty)
        .unwrap();
    assert_eq!(call, HttpCall::new(Method::Get, "anything".to_string()));
    let refused = client.compose(
        Method::Get,
        "http://localhost/".to_string(),
        false,
        Vec::new(),
        Payload::Empty,
    );
    assert_eq!(
        refused,
        Err(Error::BuildError("http://localhost/".to_string()))
    );
}

#[test]
fn request_header_that_cannot_be_sent_is_a_build_error() {
    let client = Client::new(SERVER);
    let format = |name: &str, value: &str| {
        client.assemble(
            Method::Get,
            "hello",
            vec![pair("ok", "fine"), pair(name, value), pair("", "")],
            Payload::Empty,
        )
    };
    assert_eq!(format("x y", "v"), Err(Error::BuildError("x y".to_string())));
    assert_eq!(format("x", "v\u{0}"), Err(Error::BuildError("x".to_string())));
    assert_eq!(format("x(", "v"), Err(Error::BuildError("x(".to_string())));
    assert_eq!(
        format("\u{e9}", "v"),
        Err(Error::BuildError("\u{e9}".to_string()))
    );
    let long = "a".repeat(65536);
    assert_eq!(format(&long, "v"), Err(Error::BuildError(long.clone())));
    // the first refused header is the one that is named
    assert_eq!(format("fine", "v"), Err(Error::BuildError(String::new())));
    let longest = "a".repeat(65535);
    let call = client
        .assemble(
            Method::Get,
            "hello",
            vec![pair(&longest, ""), pair("X-!#$%&'*+-.^_`|~\"09", "\t caf\u{e9} ~")],
            Payload::Empty,
        )
        .unwrap();
    assert_eq!(call.headers.len(), 2);
}

#[test]
fn set_header_replaces_whatever_the_case() {
    let mut call = HttpCall::new(Method::Get, "http://h/".to_string());
    call.append_header("Accept".to_string(), "a".to_string());
    call.append_header("x".to_string(), "1".to_string());
    call.append_header("ACCEPT".to_string(), "b".to_string());
    assert!(call.has_header("accept"));
    assert!(call.has_header("X"));
    assert!(!call.has_header("accep"));
    call.set_header("accept".to_string(), "c".to_string());
    assert_eq!(call.headers, vec![pair("x", "1"), pair("accept", "c")]);
    call.set_headers(&vec![pair("y", "2"), pair("X", "3"), pair("Y", "4")]);
    assert_eq!(
        call.headers,
        vec![pair("accept", "c"), pair("X", "3"), pair("Y", "4")]
    );
    assert!(rest_client::text::names_match("Content-Type", "content-type"));
    assert!(!rest_client::text::names_match("content_type", "content-type"));
    assert!(!rest_client::text::names_match("\u{c9}", "\u{e9}"));
    assert_eq!(rest_client::text::to_lower('Z'), 'z');
    assert_eq!(rest_client::text::to_lower('['), '[');
    assert_eq!(rest_client::text::to_lower('@'), '@');
}

#[test]
fn formatting_twice_gives_the_same_call() {
    let client = Client::new(SERVER).bearer_auth("t");
    let request = QueryHello {
        name: "Jessica".into(),
    };
    let one = client
        .format_request(&request, hello_pairs, hello_json)
        .unwrap();
    let other = client
        .format_request(&request, hello_pairs, hello_json)
        .unwrap();
    assert_eq!(one, other);
}

#[test]
fn send_makes_exactly_one_call() {
    let client = Client::new(SERVER).bearer_auth("PASSWORD");
    let request = QueryHello {
        name: "Sebastian".into(),
    };
    let mut calls = Vec::new();
    let sent = client.send(
        &request,
        hello_pairs,
        hello_json,
        |call| {
            calls.push(call);
            Exchange::Answered(200, "Hello, Sebastian!".to_string())
        },
        greeting,
    );
    assert_eq!(
        sent,
        Ok(NameGreeting {
            message: "Hello, Sebastian!".into()
        })
    );
    assert_eq!(calls.len(), 1);
    assert_eq!(calls[0].url, "http://localhost:8080/hello");
    assert_eq!(calls[0].query, vec![pair("name", "Sebastian")]);
    assert_eq!(
        calls[0].headers,
        vec![pair("authorization", "Bearer PASSWORD")]
    );
}

#[test]
fn send_does_not_retry_a_failure() {
    let client = Client::new(SERVER);
    let request = QueryHello { name: "x".into() };
    let mut count = 0;
    let sent = client.send(
        &request,
        hello_pairs,
        hello_json,
        |_| {
            count += 1;
            Exchange::Answered(503, "busy".to_string())
        },
        greeting,
    );
    assert_eq!(sent, Err(Error::ServerError(503, "busy".to_string())));
    assert_eq!(count, 1);
    let mut count = 0;
    let sent = client.send(
        &request,
        hello_pairs,
        hello_json,
        |_| {
            count += 1;
            Exchange::Failed("timed out".to_string())
        },
        greeting,
    );
    assert_eq!(sent, Err(Error::TransportError("timed out".to_string())));
    assert_eq!(count, 1);
}

#[test]
fn send_makes_no_call_for_a_request_that_cannot_be_built() {
    let client = Client::new("localhost:8080");
    let request = QueryHello { name: "x".into() };
    let mut count = 0;
    let sent = client.send(
        &request,
        hello_pairs,
        hello_json,
        |_| {
            count += 1;
            Exchange::Answered(200, String::new())
        },
        greeting,
    );
    assert_eq!(
        sent,
        Err(Error::BuildError("localhost:8080/hello".to_string()))
    );
    assert_eq!(count, 0);
}

#[test]
fn exchange_passes_a_formatting_error_on() {
    let failed: Result<HttpCall, Error> = Err(Error::BuildError("x".to_string()));
    let sent = rest_client::client::exchange(
        failed,
        |_| Exchange::Answered(200, "unused".to_string()),
        greeting,
    );
    assert_eq!(sent, Err(Error::BuildError("x".to_string())));
    let call = HttpCall::new(Method::Get, "http://h/".to_string());
    let sent = rest_client::client::exchange(
        Ok(call),
        |call| Exchange::Answered(200, call.url),
        greeting,
    );
    assert_eq!(
        sent,
        Ok(NameGreeting {
            message: "http://h/".to_string()
        })
    );
}
