//! The client: a base URL and at most one way of authenticating, and the
//! formatting of a request into the call that is sent for it.
use crate::call::{
    bare_call, copy_pairs, lemma_pushed_view, text_view, with_basic, with_bearer, with_headers_set,
    with_payload, CallView, HttpCall,
};
use crate::error::{result_view, Error, ErrorView};
use crate::request::{
    encoded_query, encodes, Method, Pairs, Payload, PayloadView, Request, RequestBody,
};
use crate::response::{outcome, receive, receives, Exchange};
use crate::text::{join_url, joined};
use crate::wire::{
    header_name_accepted, header_value_accepted, url_accepted, url_is_accepted, valid_header,
};
use vstd::prelude::*;
use vstd::string::*;

verus! {

/// How a client authenticates its calls.
#[derive(Debug, Clone, PartialEq, Eq)]
pub enum Authentication {
    /// A bearer token, sent in the `authorization` header.
    Bearer(String),
    /// A user name and a password, sent in the `authorization` header.
    Basic(String, String),
    /// Pairs added to the query of every call, in this order.
    Query(Vec<(String, String)>),
    /// Headers set on every call. Where two have the same name the later one
    /// counts.
    Header(Vec<(String, String)>),
}

/// An [`Authentication`] as a mathematical value.
pub ghost enum AuthView {
    Bearer(Seq<char>),
    Basic(Seq<char>, Seq<char>),
    Query(Pairs),
    Header(Pairs),
}

impl View for Authentication {
    type V = AuthView;

    open spec fn view(&self) -> AuthView {
        match self {
            Authentication::Bearer(token) => AuthView::Bearer(token@),
            Authentication::Basic(user, pass) => AuthView::Basic(user@, pass@),
            Authentication::Query(pairs) => AuthView::Query(pairs.deep_view()),
            Authentication::Header(pairs) => AuthView::Header(pairs.deep_view()),
        }
    }
}

/// The configuration of a REST client: the base URL of the server and the
/// authentication that every call gets. Nothing of it changes once a call has
/// been formatted from it.
#[derive(Debug, Clone)]
pub struct Client {
    base_url: String,
    auth: Option<Authentication>,
}

/// A [`Client`] as a mathematical value.
pub ghost struct ClientView {
    pub base_url: Seq<char>,
    pub auth: Option<AuthView>,
}

/// The view of an optional authentication.
pub open spec fn auth_view(auth: Option<Authentication>) -> Option<AuthView> {
    match auth {
        Some(auth) => Some(auth@),
        None => None,
    }
}

impl View for Client {
    type V = ClientView;

    closed spec fn view(&self) -> ClientView {
        ClientView { base_url: self.base_url@, auth: auth_view(self.auth) }
    }
}

/// The name of the first header of the list that cannot be sent, if there is
/// one.
pub open spec fn refused_header(headers: Pairs) -> Option<Seq<char>>
    decreases headers.len(),
{
    if headers.len() == 0 {
        None
    } else if !valid_header(headers[0]) {
        Some(headers[0].0)
    } else {
        refused_header(headers.drop_first())
    }
}

/// The call with a client's authentication applied. Pairs go behind the
/// query pairs that are there; headers replace those of the same name.
pub open spec fn with_auth(call: CallView, auth: Option<AuthView>) -> Result<CallView, ErrorView> {
    match auth {
        None => Ok(call),
        Some(AuthView::Bearer(token)) => with_bearer(call, token),
        Some(AuthView::Basic(user, pass)) => with_basic(call, user, pass),
        Some(AuthView::Query(pairs)) => Ok(CallView { query: call.query + pairs, ..call }),
        Some(AuthView::Header(pairs)) => match refused_header(pairs) {
            Some(name) => Err(ErrorView::BuildError(name)),
            None => Ok(CallView { headers: with_headers_set(call.headers, pairs), ..call }),
        },
    }
}

/// The call that a client sends to `url` with the given method, headers and
/// payload, where `accepted` says whether the URL can be parsed: the
/// request's headers first, then the payload, then the authentication. Where
/// something is refused, the build error says what: the URL, or the name of
/// the first header that cannot be sent.
pub open spec fn composed(
    client: ClientView,
    method: Method,
    url: Seq<char>,
    accepted: bool,
    headers: Pairs,
    payload: PayloadView,
) -> Result<CallView, ErrorView> {
    if !accepted {
        Err(ErrorView::BuildError(url))
    } else {
        match refused_header(headers) {
            Some(name) => Err(ErrorView::BuildError(name)),
            None => with_auth(
                with_payload(CallView { headers, ..bare_call(method, url) }, payload),
                client.auth,
            ),
        }
    }
}

/// The call that a client sends for a request with the given method,
/// endpoint, headers and payload: the call composed for the join of the
/// client's base URL and the endpoint.
pub open spec fn formatted(
    client: ClientView,
    method: Method,
    endpoint: Seq<char>,
    headers: Pairs,
    payload: PayloadView,
) -> Result<CallView, ErrorView> {
    let url = joined(client.base_url, endpoint);
    composed(client, method, url, url_accepted(url), headers, payload)
}

/// That `call` is what formatting gives where the request says `endpoint`,
/// `headers` and `body`, and encoding the body gives `encoded`: the call
/// formatted with the encoded payload, or the error of the encoder.
pub open spec fn described<'a, R, Q, J>(
    client: ClientView,
    request: &'a R,
    to_query: Q,
    to_json: J,
    endpoint: String,
    headers: Vec<(String, String)>,
    body: RequestBody<&'a R::Body>,
    encoded: Result<Payload, Error>,
    call: Result<HttpCall, Error>,
) -> bool where
    R: Request,
    Q: FnOnce(&'a R::Body) -> Result<Vec<(String, String)>, String>,
    J: FnOnce(&'a R::Body) -> Result<String, String>,
 {
    &&& call_ensures(R::endpoint, (request,), endpoint)
    &&& call_ensures(R::headers, (request,), headers)
    &&& call_ensures(R::body, (request,), body)
    &&& encodes(body, to_query, to_json, encoded)
    &&& result_view(call) == match encoded {
        Ok(payload) => formatted(client, R::METHOD, endpoint@, headers.deep_view(), payload@),
        Err(error) => Err(error@),
    }
}

/// That `call` is a result of formatting `request` for a client: the
/// request describes itself in some way, and `call` is what formatting
/// gives of that description.
pub open spec fn format_of<'a, R, Q, J>(
    client: ClientView,
    request: &'a R,
    to_query: Q,
    to_json: J,
    call: Result<HttpCall, Error>,
) -> bool where
    R: Request,
    Q: FnOnce(&'a R::Body) -> Result<Vec<(String, String)>, String>,
    J: FnOnce(&'a R::Body) -> Result<String, String>,
 {
    exists|
        endpoint: String,
        headers: Vec<(String, String)>,
        body: RequestBody<&'a R::Body>,
        encoded: Result<Payload, Error>,
    |
        described(client, request, to_query, to_json, endpoint, headers, body, encoded, call)
}

/// That `sent` is what sending a formatted request may give: the error of
/// formatting, with no call made; else what is received for an answer that
/// the transport gave to the formatted call.
pub open spec fn exchanges<T, X, D>(
    formatted: Result<HttpCall, Error>,
    dispatch: X,
    decode: D,
    sent: Result<T, Error>,
) -> bool where X: FnOnce(HttpCall) -> Exchange, D: FnOnce(String) -> Result<T, String> {
    match formatted {
        Ok(call) => exists|exchange: Exchange|
            call_ensures(dispatch, (call,), exchange) && receives(exchange, decode, sent),
        Err(error) => outcome(sent) == Err::<T, ErrorView>(error@),
    }
}

/// That `sent` is a result of sending `request` for a client: the request
/// is formatted, and `sent` is what the exchange for the formatted call
/// gives.
pub open spec fn sends<'a, R, Q, J, X, D>(
    client: ClientView,
    request: &'a R,
    to_query: Q,
    to_json: J,
    dispatch: X,
    decode: D,
    sent: Result<R::Response, Error>,
) -> bool where
    R: Request,
    Q: FnOnce(&'a R::Body) -> Result<Vec<(String, String)>, String>,
    J: FnOnce(&'a R::Body) -> Result<String, String>,
    X: FnOnce(HttpCall) -> Exchange,
    D: FnOnce(String) -> Result<R::Response, String>,
 {
    exists|formatted: Result<HttpCall, Error>|
        #![trigger format_of(client, request, to_query, to_json, formatted)]
        format_of(client, request, to_query, to_json, formatted) && exchanges(
            formatted,
            dispatch,
            decode,
            sent,
        )
}

/// The pairs of a list of borrowed texts, as owned texts.
fn own_pairs(pairs: &Vec<(&str, &str)>) -> (owned: Vec<(String, String)>)
    ensures
        owned.deep_view() == pairs.deep_view(),
{
    let mut owned: Vec<(String, String)> = Vec::new();
    let mut i: usize = 0;
    while i < pairs.len()
        invariant
            i <= pairs.len(),
            owned.deep_view() == pairs.deep_view().take(i as int),
        decreases pairs.len() - i,
    {
        let ghost before = owned;
        let pair = (String::from_str(pairs[i].0), String::from_str(pairs[i].1));
        owned.push(pair);
        proof {
            lemma_pushed_view(before, owned, pair);
            assert(pairs.deep_view().take(i + 1) =~= pairs.deep_view().take(i as int).push(
                pairs.deep_view()[i as int],
            ));
        }
        i += 1;
    }
    proof {
        assert(pairs.deep_view().take(pairs.len() as int) =~= pairs.deep_view());
    }
    owned
}

/// The name of the first header that cannot be sent, if there is one.
fn first_refused(headers: &Vec<(String, String)>) -> (name: Option<String>)
    ensures
        text_view(name) == refused_header(headers.deep_view()),
{
    let mut i: usize = 0;
    proof {
        assert(headers.deep_view().skip(0) =~= headers.deep_view());
    }
    while i < headers.len()
        invariant
            i <= headers.len(),
            refused_header(headers.deep_view()) == refused_header(
                headers.deep_view().skip(i as int),
            ),
        decreases headers.len() - i,
    {
        let ghost rest = headers.deep_view().skip(i as int);
        proof {
            assert(rest[0] == headers.deep_view()[i as int]);
            assert(rest.drop_first() =~= headers.deep_view().skip(i + 1));
        }
        let name = headers[i].0.as_str();
        let value = headers[i].1.as_str();
        if !header_name_accepted(name) || !header_value_accepted(value) {
            return Some(headers[i].0.clone());
        }
        i += 1;
    }
    None
}

/// Makes the exchange for a formatted request: where formatting failed, its
/// error and no call; else one call of `dispatch`, and what is received for
/// its answer.
pub fn exchange<T, X, D>(formatted: Result<HttpCall, Error>, dispatch: X, decode: D) -> (sent:
    Result<T, Error>) where X: FnOnce(HttpCall) -> Exchange, D: FnOnce(String) -> Result<T, String>
    requires
        forall|call: HttpCall| call_requires(dispatch, (call,)),
        forall|body: String| call_requires(decode, (body,)),
    ensures
        exchanges(formatted, dispatch, decode, sent),
{
    match formatted {
        Ok(call) => {
            let answer = dispatch(call);
            let sent = receive(answer, decode);
            assert(call_ensures(dispatch, (call,), answer) && receives(answer, decode, sent));
            sent
        },
        Err(error) => Err(error),
    }
}

impl Client {
    /// A client for the server at `base_url`, without authentication.
    pub fn new(base_url: &str) -> (client: Client)
        ensures
            client@ == (ClientView { base_url: base_url@, auth: None }),
    {
        Client { base_url: String::from_str(base_url), auth: None }
    }

    /// The client with bearer authentication in place of what it had.
    pub fn bearer_auth(self, token: &str) -> (client: Client)
        ensures
            client@ == (ClientView { auth: Some(AuthView::Bearer(token@)), ..self@ }),
    {
        let mut client = self;
        client.auth = Some(Authentication::Bearer(String::from_str(token)));
        client
    }

    /// The client with basic authentication in place of what it had.
    pub fn basic_auth(self, user: &str, pass: &str) -> (client: Client)
        ensures
            client@ == (ClientView { auth: Some(AuthView::Basic(user@, pass@)), ..self@ }),
    {
        let mut client = self;
        client.auth = Some(
            Authentication::Basic(String::from_str(user), String::from_str(pass)),
        );
        client
    }

    /// The client with authentication by query pairs in place of what it had.
    pub fn query_auth(self, pairs: Vec<(&str, &str)>) -> (client: Client)
        ensures
            client@ == (ClientView { auth: Some(AuthView::Query(pairs.deep_view())), ..self@ }),
    {
        let mut client = self;
        client.auth = Some(Authentication::Query(own_pairs(&pairs)));
        client
    }

    /// The client with authentication by headers in place of what it had. A
    /// header that cannot be sent is refused when a call is formatted.
    pub fn header_auth(self, pairs: Vec<(&str, &str)>) -> (client: Client)
        ensures
            client@ == (ClientView { auth: Some(AuthView::Header(pairs.deep_view())), ..self@ }),
    {
        let mut client = self;
        client.auth = Some(Authentication::Header(own_pairs(&pairs)));
        client
    }

    /// The base URL of the server.
    pub fn base_url(&self) -> (url: &str)
        ensures
            url@ == self@.base_url,
    {
        self.base_url.as_str()
    }

    /// Applies this client's authentication to a call.
    pub fn authenticate(&self, call: HttpCall) -> (authenticated: Result<HttpCall, Error>)
        ensures
            result_view(authenticated) == with_auth(call@, self@.auth),
    {
        match &self.auth {
            None => Ok(call),
            Some(Authentication::Bearer(token)) => call.bearer_auth(token.as_str()),
            Some(Authentication::Basic(user, pass)) => call.basic_auth(
                user.as_str(),
                pass.as_str(),
            ),
            Some(Authentication::Query(pairs)) => {
                let mut call = call;
                call.append_query(copy_pairs(pairs));
                Ok(call)
            },
            Some(Authentication::Header(pairs)) => {
                match first_refused(pairs) {
                    Some(name) => Err(Error::BuildError(name)),
                    None => {
                        let mut call = call;
                        call.set_headers(pairs);
                        Ok(call)
                    },
                }
            },
        }
    }

    /// Composes the call to `url`, where `accepted` says whether the URL
    /// parser took the URL: the request's headers first, then the payload,
    /// then this client's authentication.
    pub fn compose(
        &self,
        method: Method,
        url: String,
        accepted: bool,
        headers: Vec<(String, String)>,
        payload: Payload,
    ) -> (call: Result<HttpCall, Error>)
        ensures
            result_view(call) == composed(
                self@,
                method,
                url@,
                accepted,
                headers.deep_view(),
                payload@,
            ),
    {
        if !accepted {
            return Err(Error::BuildError(url));
        }
        match first_refused(&headers) {
            Some(name) => Err(Error::BuildError(name)),
            None => {
                let mut call = HttpCall::new(method, url);
                call.headers = headers;
                let call = call.request_body(payload);
                self.authenticate(call)
            },
        }
    }

    /// Formats the call for a request that is given by its parts: joins the
    /// endpoint to the base URL, has the URL parsed, and composes the call.
    pub fn assemble(
        &self,
        method: Method,
        endpoint: &str,
        headers: Vec<(String, String)>,
        payload: Payload,
    ) -> (call: Result<HttpCall, Error>)
        ensures
            result_view(call) == formatted(
                self@,
                method,
                endpoint@,
                headers.deep_view(),
                payload@,
            ),
    {
        let url = join_url(self.base_url.as_str(), endpoint);
        let accepted = url_is_accepted(url.as_str());
        self.compose(method, url, accepted, headers, payload)
    }

    /// Formats the call for a request. The request says its endpoint, its
    /// headers and its payload; the payload is encoded by the encoder that
    /// its variant names, and an encoder's refusal is the build error. The
    /// same request may be formatted again and again.
    pub fn format_request<'a, R, Q, J>(&self, request: &'a R, to_query: Q, to_json: J) -> (call:
        Result<HttpCall, Error>) where
        R: Request,
        Q: FnOnce(&'a R::Body) -> Result<Vec<(String, String)>, String>,
        J: FnOnce(&'a R::Body) -> Result<String, String>,

        requires
            forall|body: &'a R::Body| call_requires(to_query, (body,)),
            forall|body: &'a R::Body| call_requires(to_json, (body,)),
        ensures
            format_of(self@, request, to_query, to_json, call),
    {
        let endpoint = request.endpoint();
        let headers = request.headers();
        let body = request.body();
        let encoded = body.encode(to_query, to_json);
        let ghost sent = headers;
        let call = match encoded {
            Ok(payload) => self.assemble(R::METHOD, endpoint.as_str(), headers, payload),
            Err(error) => Err(error),
        };
        assert(described(self@, request, to_query, to_json, endpoint, sent, body, encoded, call));
        call
    }

    /// Send a single request: formats it, hands the call to `dispatch`, and
    /// makes of the answer what [`receive`] makes of it. `dispatch` is the
    /// transport: it is called once where formatting succeeds and not at all
    /// where it fails, and nothing is retried.
    pub fn send<'a, R, Q, J, X, D>(
        &self,
        request: &'a R,
        to_query: Q,
        to_json: J,
        dispatch: X,
        decode: D,
    ) -> (sent: Result<R::Response, Error>) where
        R: Request,
        Q: FnOnce(&'a R::Body) -> Result<Vec<(String, String)>, String>,
        J: FnOnce(&'a R::Body) -> Result<String, String>,
        X: FnOnce(HttpCall) -> Exchange,
        D: FnOnce(String) -> Result<R::Response, String>,

        requires
            forall|body: &'a R::Body| call_requires(to_query, (body,)),
            forall|body: &'a R::Body| call_requires(to_json, (body,)),
            forall|call: HttpCall| call_requires(dispatch, (call,)),
            forall|body: String| call_requires(decode, (body,)),
        ensures
            sends(self@, request, to_query, to_json, dispatch, decode, sent),
    {
        let formatted = self.format_request(request, to_query, to_json);
        let sent = exchange(formatted, dispatch, decode);
        assert(format_of(self@, request, to_query, to_json, formatted));
        sent
    }
}

/// The query pairs that an authentication adds to a call.
pub open spec fn auth_pairs(auth: Option<AuthView>) -> Pairs {
    match auth {
        Some(AuthView::Query(pairs)) => pairs,
        _ => Seq::empty(),
    }
}

/// The query pairs that a payload puts on a call.
pub open spec fn payload_pairs(payload: PayloadView) -> Pairs {
    match payload {
        PayloadView::Query(pairs) => pairs,
        _ => Seq::empty(),
    }
}

/// The body that a payload puts on a call.
pub open spec fn payload_text(payload: PayloadView) -> Option<Seq<char>> {
    match payload {
        PayloadView::Json(text) => Some(text),
        _ => None,
    }
}

/// A formatted call goes to the join of base URL and endpoint with the
/// request's method. Its query holds the pairs of the payload and behind
/// them the pairs of the authentication, and no others; its body is the text
/// of a JSON payload, and there is none without one.
pub proof fn lemma_formatted_parts(
    client: ClientView,
    method: Method,
    endpoint: Seq<char>,
    headers: Pairs,
    payload: PayloadView,
)
    ensures
        formatted(client, method, endpoint, headers, payload) matches Ok(call) ==> {
            &&& call.method == method
            &&& call.url == joined(client.base_url, endpoint)
            &&& url_accepted(call.url)
            &&& call.query == payload_pairs(payload) + auth_pairs(client.auth)
            &&& call.body == payload_text(payload)
        },
{
    let url = joined(client.base_url, endpoint);
    let bare = CallView { headers, ..bare_call(method, url) };
    let loaded = with_payload(bare, payload);
    assert(loaded.query =~= payload_pairs(payload));
    if let Ok(call) = formatted(client, method, endpoint, headers, payload) {
        assert(call.query =~= payload_pairs(payload) + auth_pairs(client.auth));
    }
}

/// A request without a payload gives a call without a body, and with no
/// query pairs but those of the authentication.
pub proof fn lemma_empty_body_adds_nothing<'a, R, Q, J>(
    client: ClientView,
    request: &'a R,
    to_query: Q,
    to_json: J,
    endpoint: String,
    headers: Vec<(String, String)>,
    body: RequestBody<&'a R::Body>,
    encoded: Result<Payload, Error>,
    call: Result<HttpCall, Error>,
) where
    R: Request,
    Q: FnOnce(&'a R::Body) -> Result<Vec<(String, String)>, String>,
    J: FnOnce(&'a R::Body) -> Result<String, String>,

    requires
        described(client, request, to_query, to_json, endpoint, headers, body, encoded, call),
        body is Empty,
    ensures
        call matches Ok(sent) ==> sent@.body is None && sent@.query == auth_pairs(client.auth),
{
    lemma_formatted_parts(client, R::METHOD, endpoint@, headers.deep_view(), PayloadView::Empty);
    assert(Seq::<(Seq<char>, Seq<char>)>::empty() + auth_pairs(client.auth) =~= auth_pairs(
        client.auth,
    ));
}

/// A request with a query payload gives a call whose query holds exactly
/// the pairs that the encoder gave for the payload, in the encoder's order,
/// and behind them the pairs of the authentication; the call has no body.
pub proof fn lemma_query_body_gives_its_pairs<'a, R, Q, J>(
    client: ClientView,
    request: &'a R,
    to_query: Q,
    to_json: J,
    endpoint: String,
    headers: Vec<(String, String)>,
    body: RequestBody<&'a R::Body>,
    encoded: Result<Payload, Error>,
    call: Result<HttpCall, Error>,
) where
    R: Request,
    Q: FnOnce(&'a R::Body) -> Result<Vec<(String, String)>, String>,
    J: FnOnce(&'a R::Body) -> Result<String, String>,

    requires
        described(client, request, to_query, to_json, endpoint, headers, body, encoded, call),
        body is Query,
    ensures
        call matches Ok(sent) ==> exists|pairs: Vec<(String, String)>|
            #![trigger call_ensures(to_query, (body->Query_0,), Ok(pairs))]
            call_ensures(to_query, (body->Query_0,), Ok(pairs)) && sent@.query
                == pairs.deep_view() + auth_pairs(client.auth) && sent@.body is None,
{
    if let Ok(sent) = call {
        let answer = choose|answer: Result<Vec<(String, String)>, String>|
            call_ensures(to_query, (body->Query_0,), answer) && result_view(encoded)
                == encoded_query(answer);
        let pairs = answer->Ok_0;
        lemma_formatted_parts(
            client,
            R::METHOD,
            endpoint@,
            headers.deep_view(),
            PayloadView::Query(pairs.deep_view()),
        );
        assert(call_ensures(to_query, (body->Query_0,), Ok(pairs)));
    }
}

/// With bearer authentication every formatted call has, as the last of its
/// headers, the `authorization` header with the token behind `Bearer `.
pub proof fn lemma_bearer_on_every_call(
    client: ClientView,
    token: Seq<char>,
    method: Method,
    endpoint: Seq<char>,
    headers: Pairs,
    payload: PayloadView,
)
    requires
        client.auth == Some(AuthView::Bearer(token)),
    ensures
        formatted(client, method, endpoint, headers, payload) matches Ok(call) ==> call.headers.len()
            > 0 && call.headers.last() == ("authorization"@, "Bearer "@ + token),
{
}

} // verus!
