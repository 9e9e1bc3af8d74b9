//! One HTTP call as plain data: what is to be sent, before any transport
//! sees it.
use crate::error::{result_view, Error, ErrorView};
use crate::request::{Method, Pairs, Payload, PayloadView};
use crate::text::{names_match, same_name};
use crate::wire::{base64_encode, base64_text, header_value_accepted, valid_header_value};
use vstd::prelude::*;
use vstd::string::*;

verus! {

/// A description of one HTTP call. The query pairs are kept apart from the
/// URL, in the order in which they go on the wire; an equal key may occur
/// more than once.
#[derive(Debug, Clone, PartialEq, Eq)]
pub struct HttpCall {
    pub method: Method,
    pub url: String,
    pub headers: Vec<(String, String)>,
    pub query: Vec<(String, String)>,
    pub body: Option<String>,
}

/// An [`HttpCall`] as a mathematical value.
pub ghost struct CallView {
    pub method: Method,
    pub url: Seq<char>,
    pub headers: Pairs,
    pub query: Pairs,
    pub body: Option<Seq<char>>,
}

/// The text of an optional string.
pub open spec fn text_view(text: Option<String>) -> Option<Seq<char>> {
    match text {
        Some(text) => Some(text@),
        None => None,
    }
}

impl View for HttpCall {
    type V = CallView;

    open spec fn view(&self) -> CallView {
        CallView {
            method: self.method,
            url: self.url@,
            headers: self.headers.deep_view(),
            query: self.query.deep_view(),
            body: text_view(self.body),
        }
    }
}

/// The call to `url` that carries nothing yet.
pub open spec fn bare_call(method: Method, url: Seq<char>) -> CallView {
    CallView { method, url, headers: Seq::empty(), query: Seq::empty(), body: None }
}

/// Whether some header of the list has the name `name`.
pub open spec fn has_name(headers: Pairs, name: Seq<char>) -> bool {
    exists|i: int| 0 <= i < headers.len() && same_name(#[trigger] headers[i].0, name)
}

/// The test that a header has another name than `name`.
pub open spec fn not_named(name: Seq<char>) -> spec_fn((Seq<char>, Seq<char>)) -> bool {
    |header: (Seq<char>, Seq<char>)| !same_name(header.0, name)
}

/// The headers of the list that have another name than `name`, in their order.
pub open spec fn without_name(headers: Pairs, name: Seq<char>) -> Pairs {
    headers.filter(not_named(name))
}

/// The list after a header has been set: every earlier header of that name
/// is gone, and the new one stands at the end.
pub open spec fn with_header_set(headers: Pairs, header: (Seq<char>, Seq<char>)) -> Pairs {
    without_name(headers, header.0).push(header)
}

/// The list after each header of `new` has been set, one after the other.
pub open spec fn with_headers_set(headers: Pairs, new: Pairs) -> Pairs
    decreases new.len(),
{
    if new.len() == 0 {
        headers
    } else {
        with_headers_set(with_header_set(headers, new[0]), new.drop_first())
    }
}

/// The call with a payload put on it. A query payload goes behind the pairs
/// that are there. A JSON payload becomes the body, and is announced by a
/// `content-type` header unless the call has one.
pub open spec fn with_payload(call: CallView, payload: PayloadView) -> CallView {
    match payload {
        PayloadView::Empty => call,
        PayloadView::Query(pairs) => CallView { query: call.query + pairs, ..call },
        PayloadView::Json(text) => CallView {
            body: Some(text),
            headers: if has_name(call.headers, "content-type"@) {
                call.headers
            } else {
                call.headers.push(("content-type"@, "application/json"@))
            },
            ..call
        },
    }
}

/// The call with an `authorization` header of this value added behind its
/// headers, or the build error that names the header where the value cannot
/// be sent.
pub open spec fn with_authorization(call: CallView, value: Seq<char>) -> Result<
    CallView,
    ErrorView,
> {
    if valid_header_value(value) {
        Ok(CallView { headers: call.headers.push(("authorization"@, value)), ..call })
    } else {
        Err(ErrorView::BuildError("authorization"@))
    }
}

/// The call with a bearer token in its `authorization` header.
pub open spec fn with_bearer(call: CallView, token: Seq<char>) -> Result<CallView, ErrorView> {
    with_authorization(call, "Bearer "@ + token)
}

/// The call with encoded credentials in its `authorization` header.
pub open spec fn with_credentials(call: CallView, credentials: Seq<char>) -> Result<
    CallView,
    ErrorView,
> {
    with_authorization(call, "Basic "@ + credentials)
}

/// The call with a user and a password in its `authorization` header: the
/// credentials are the base64 text of the two with a colon between them.
pub open spec fn with_basic(call: CallView, user: Seq<char>, pass: Seq<char>) -> Result<
    CallView,
    ErrorView,
> {
    with_credentials(call, base64_text(user + seq![':'] + pass))
}

/// The view of a list that got one more pair.
pub proof fn lemma_pushed_view(before: Vec<(String, String)>, after: Vec<(String, String)>, pair: (
    String,
    String,
))
    requires
        after@ == before@.push(pair),
    ensures
        after.deep_view() == before.deep_view().push((pair.0@, pair.1@)),
{
    assert(after.deep_view() =~= before.deep_view().push((pair.0@, pair.1@)));
}

/// The view of two lists put together.
pub proof fn lemma_appended_view(
    first: Vec<(String, String)>,
    second: Vec<(String, String)>,
    both: Vec<(String, String)>,
)
    requires
        both@ == first@ + second@,
    ensures
        both.deep_view() == first.deep_view() + second.deep_view(),
{
    assert(both.deep_view() =~= first.deep_view() + second.deep_view());
}

/// A copy of a list of pairs.
pub fn copy_pairs(pairs: &Vec<(String, String)>) -> (copy: Vec<(String, String)>)
    ensures
        copy.deep_view() == pairs.deep_view(),
{
    let mut copy: Vec<(String, String)> = Vec::new();
    let mut i: usize = 0;
    while i < pairs.len()
        invariant
            i <= pairs.len(),
            copy.deep_view() == pairs.deep_view().take(i as int),
        decreases pairs.len() - i,
    {
        let ghost before = copy;
        let pair = (pairs[i].0.clone(), pairs[i].1.clone());
        copy.push(pair);
        proof {
            lemma_pushed_view(before, copy, pair);
            assert(pairs.deep_view().take(i + 1) =~= pairs.deep_view().take(i as int).push(
                pairs.deep_view()[i as int],
            ));
        }
        i += 1;
    }
    proof {
        assert(pairs.deep_view().take(pairs.len() as int) =~= pairs.deep_view());
    }
    copy
}

/// The headers of `headers` whose name is not `name`.
fn headers_without(headers: &Vec<(String, String)>, name: &str) -> (kept: Vec<(String, String)>)
    ensures
        kept.deep_view() == without_name(headers.deep_view(), name@),
{
    let mut kept: Vec<(String, String)> = Vec::new();
    let mut i: usize = 0;
    proof {
        reveal(Seq::filter);
        assert(headers.deep_view().take(0) =~= Seq::empty());
        assert(kept.deep_view() =~= Seq::empty());
    }
    while i < headers.len()
        invariant
            i <= headers.len(),
            kept.deep_view() == without_name(headers.deep_view().take(i as int), name@),
        decreases headers.len() - i,
    {
        let header = &headers[i];
        let ghost before = kept;
        let ghost seen = headers.deep_view().take(i as int);
        proof {
            headers.deep_view().lemma_take_succ_push(i as int);
            seen.lemma_filter_push(headers.deep_view()[i as int], not_named(name@));
        }
        if !names_match(header.0.as_str(), name) {
            let pair = (header.0.clone(), header.1.clone());
            kept.push(pair);
            proof {
                lemma_pushed_view(before, kept, pair);
            }
        }
        i += 1;
    }
    proof {
        assert(headers.deep_view().take(headers.len() as int) =~= headers.deep_view());
    }
    kept
}

impl HttpCall {
    /// The call to `url` that carries nothing yet.
    pub fn new(method: Method, url: String) -> (call: HttpCall)
        ensures
            call@ == bare_call(method, url@),
    {
        let call = HttpCall { method, url, headers: Vec::new(), query: Vec::new(), body: None };
        assert(call.headers.deep_view() =~= Seq::empty());
        assert(call.query.deep_view() =~= Seq::empty());
        call
    }

    /// Whether the call has a header of this name, whatever the case of its
    /// letters.
    pub fn has_header(&self, name: &str) -> (found: bool)
        ensures
            found == has_name(self@.headers, name@),
    {
        let mut i: usize = 0;
        while i < self.headers.len()
            invariant
                i <= self.headers.len(),
                forall|k: int| 0 <= k < i ==> !same_name(#[trigger] self@.headers[k].0, name@),
            decreases self.headers.len() - i,
        {
            if names_match(self.headers[i].0.as_str(), name) {
                assert(same_name(self@.headers[i as int].0, name@));
                return true;
            }
            i += 1;
        }
        false
    }

    /// Adds a header behind those that are there. Headers of the same name
    /// stay.
    pub fn append_header(&mut self, name: String, value: String)
        ensures
            final(self)@ == (CallView {
                headers: old(self)@.headers.push((name@, value@)),
                ..old(self)@
            }),
    {
        let ghost before = self.headers;
        self.headers.push((name, value));
        proof {
            lemma_pushed_view(before, self.headers, (name, value));
        }
    }

    /// Sets a header: headers of the same name are removed, and the new one
    /// is put at the end.
    pub fn set_header(&mut self, name: String, value: String)
        ensures
            final(self)@ == (CallView {
                headers: with_header_set(old(self)@.headers, (name@, value@)),
                ..old(self)@
            }),
    {
        let mut kept = headers_without(&self.headers, name.as_str());
        let ghost before = kept;
        kept.push((name, value));
        proof {
            lemma_pushed_view(before, kept, (name, value));
        }
        self.headers = kept;
    }

    /// Sets each header of `headers`, from the first to the last.
    pub fn set_headers(&mut self, headers: &Vec<(String, String)>)
        ensures
            final(self)@ == (CallView {
                headers: with_headers_set(old(self)@.headers, headers.deep_view()),
                ..old(self)@
            }),
    {
        let mut i: usize = 0;
        proof {
            assert(headers.deep_view().skip(0) =~= headers.deep_view());
        }
        while i < headers.len()
            invariant
                i <= headers.len(),
                self@.method == old(self)@.method,
                self@.url == old(self)@.url,
                self@.query == old(self)@.query,
                self@.body == old(self)@.body,
                with_headers_set(old(self)@.headers, headers.deep_view()) == with_headers_set(
                    self@.headers,
                    headers.deep_view().skip(i as int),
                ),
            decreases headers.len() - i,
        {
            let ghost rest = headers.deep_view().skip(i as int);
            proof {
                assert(rest[0] == headers.deep_view()[i as int]);
                assert(rest.drop_first() =~= headers.deep_view().skip(i + 1));
            }
            self.set_header(headers[i].0.clone(), headers[i].1.clone());
            i += 1;
        }
    }

    /// Adds query pairs behind those that are there. Pairs with the same key
    /// stay: both go on the wire.
    pub fn append_query(&mut self, pairs: Vec<(String, String)>)
        ensures
            final(self)@ == (CallView {
                query: old(self)@.query + pairs.deep_view(),
                ..old(self)@
            }),
    {
        let ghost before = self.query;
        let mut added = pairs;
        self.query.append(&mut added);
        proof {
            lemma_appended_view(before, pairs, self.query);
        }
    }

    /// Adds an `authorization` header with this value. A value that cannot
    /// be sent is refused with a build error that names the header.
    pub fn authorize(self, value: String) -> (authorized: Result<HttpCall, Error>)
        ensures
            result_view(authorized) == with_authorization(self@, value@),
    {
        if header_value_accepted(value.as_str()) {
            let mut call = self;
            call.append_header(String::from_str("authorization"), value);
            Ok(call)
        } else {
            Err(Error::BuildError(String::from_str("authorization")))
        }
    }

    /// Authorizes the call with a bearer token.
    pub fn bearer_auth(self, token: &str) -> (authorized: Result<HttpCall, Error>)
        ensures
            result_view(authorized) == with_bearer(self@, token@),
    {
        self.authorize(String::from_str("Bearer ").concat(token))
    }

    /// Authorizes the call with credentials that are encoded already.
    pub fn basic_credentials(self, credentials: &str) -> (authorized: Result<HttpCall, Error>)
        ensures
            result_view(authorized) == with_credentials(self@, credentials@),
    {
        self.authorize(String::from_str("Basic ").concat(credentials))
    }

    /// Authorizes the call with a user name and a password.
    pub fn basic_auth(self, user: &str, pass: &str) -> (authorized: Result<HttpCall, Error>)
        ensures
            result_view(authorized) == with_basic(self@, user@, pass@),
    {
        let mut text = String::from_str(user);
        proof {
            reveal_strlit(":");
            assert(":"@ =~= seq![':']);
        }
        text.append(":");
        text.append(pass);
        let credentials = base64_encode(text.as_str());
        self.basic_credentials(credentials.as_str())
    }

    /// Puts a payload on the call.
    pub fn request_body(self, payload: Payload) -> (call: HttpCall)
        ensures
            call@ == with_payload(self@, payload@),
    {
        let mut call = self;
        match payload {
            Payload::Empty => {},
            Payload::Query(pairs) => {
                call.append_query(pairs);
            },
            Payload::Json(text) => {
                call.body = Some(text);
                if !call.has_header("content-type") {
                    call.append_header(
                        String::from_str("content-type"),
                        String::from_str("application/json"),
                    );
                }
            },
        }
        call
    }
}

} // verus!
