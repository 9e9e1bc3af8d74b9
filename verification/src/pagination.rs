//! Pagination: where a paginated sequence stands, the policy that says which
//! page comes next, and the engine that turns one request into the calls for
//! its pages, one at a time.
use crate::call::{copy_pairs, CallView, HttpCall};
use crate::client::{exchange, exchanges, format_of, formatted, Client, ClientView};
use crate::error::{result_view, Error, ErrorView};
use crate::request::{Method, Pairs, Payload, Request};
use crate::response::Exchange;
use vstd::prelude::*;

verus! {

/// What asks for a page: query pairs that are added to the call, in their
/// order.
#[derive(Debug, Clone, PartialEq, Eq)]
pub enum PaginationType {
    Query(Vec<(String, String)>),
}

impl View for PaginationType {
    type V = Pairs;

    open spec fn view(&self) -> Pairs {
        match self {
            PaginationType::Query(pairs) => pairs.deep_view(),
        }
    }
}

/// Where a paginated sequence stands: at its start, with or without
/// parameters for the first page; before a further page; or at its end.
#[derive(Debug, Clone, PartialEq, Eq)]
pub enum PaginationState<T> {
    Start(Option<T>),
    Next(T),
    End,
}

impl<T: View> View for PaginationState<T> {
    type V = PaginationState<T::V>;

    open spec fn view(&self) -> PaginationState<T::V> {
        match self {
            PaginationState::Start(Some(page)) => PaginationState::Start(Some(page@)),
            PaginationState::Start(None) => PaginationState::Start(None),
            PaginationState::Next(page) => PaginationState::Next(page@),
            PaginationState::End => PaginationState::End,
        }
    }
}

impl<T> Default for PaginationState<T> {
    fn default() -> (state: PaginationState<T>)
        ensures
            state == PaginationState::<T>::Start(None),
    {
        PaginationState::Start(None)
    }
}

/// The parameters of the page that a state asks for, if it asks for any.
pub open spec fn page_of<T>(state: PaginationState<T>) -> Option<T> {
    match state {
        PaginationState::Start(page) => page,
        PaginationState::Next(page) => Some(page),
        PaginationState::End => None,
    }
}

impl<T> PaginationState<T> {
    /// Whether the sequence is at its end.
    pub fn is_end(&self) -> (end: bool)
        ensures
            end == (self is End),
    {
        match self {
            PaginationState::End => true,
            _ => false,
        }
    }

    /// The parameters of the page that this state asks for, if it asks for
    /// any: a start may come without, the end has none.
    pub fn page(&self) -> (page: Option<&T>)
        ensures
            match page {
                Some(page) => page_of(*self) == Some(*page),
                None => page_of(*self) is None,
            },
    {
        match self {
            PaginationState::Start(page) => page.as_ref(),
            PaginationState::Next(page) => Some(page),
            PaginationState::End => None,
        }
    }
}

/// The policy of a paginated sequence: from the state a page was asked for
/// in and the decoded response, the state to go on with.
pub trait Paginator<T> {
    fn next(&self, prev: &PaginationState<PaginationType>, res: &T) -> PaginationState<
        PaginationType,
    >;
}

/// A request whose results come in pages.
pub trait PaginatedRequest: Request {
    /// The policy that this request's pages follow.
    type Pager: Paginator<Self::Response>;

    /// The policy for one run through the pages.
    fn paginator(&self) -> Self::Pager;
}

/// The state that an answer of a query rule stands for: a further page with
/// the pairs it gave, or the end.
pub open spec fn next_state(answer: Option<Vec<(String, String)>>) -> PaginationState<Pairs> {
    match answer {
        Some(pairs) => PaginationState::Next(pairs.deep_view()),
        None => PaginationState::End,
    }
}

/// A policy made of a rule that gives the query pairs of the next page, or
/// nothing when there is no further page.
pub struct QueryPaginator<F, T> where
    F: Fn(&PaginationState<PaginationType>, &T) -> Option<Vec<(String, String)>>,
 {
    f: F,
    _phantom: core::marker::PhantomData<T>,
}

impl<F, T> QueryPaginator<F, T> where
    F: Fn(&PaginationState<PaginationType>, &T) -> Option<Vec<(String, String)>>,
 {
    /// The rule of this policy.
    pub closed spec fn rule(&self) -> F {
        self.f
    }

    /// Whether the rule can be asked about every state and response.
    #[verifier::type_invariant]
    pub closed spec fn total(&self) -> bool {
        forall|prev: &PaginationState<PaginationType>, res: &T|
            call_requires(self.f, (prev, res))
    }

    /// The policy that follows `f`.
    pub fn new(f: F) -> (paginator: Self)
        requires
            forall|prev: &PaginationState<PaginationType>, res: &T| call_requires(f, (prev, res)),
        ensures
            paginator.rule() == f,
    {
        Self { f, _phantom: core::marker::PhantomData }
    }
}

impl<F, T> Paginator<T> for QueryPaginator<F, T> where
    F: Fn(&PaginationState<PaginationType>, &T) -> Option<Vec<(String, String)>>,
 {
    /// Asks the rule: pairs stand for a further page, nothing for the end.
    fn next(&self, prev: &PaginationState<PaginationType>, res: &T) -> (next: PaginationState<
        PaginationType,
    >)
        ensures
            exists|answer: Option<Vec<(String, String)>>|
                call_ensures(self.rule(), (prev, res), answer) && next@ == next_state(answer),
    {
        proof {
            use_type_invariant(self);
        }
        let answer = (self.f)(prev, res);
        let next = match answer {
            Some(pairs) => PaginationState::Next(PaginationType::Query(pairs)),
            None => PaginationState::End,
        };
        assert(call_ensures(self.rule(), (prev, res), answer) && next@ == next_state(answer));
        next
    }
}

/// The call for a page: the formatted call with the page's pairs behind the
/// query pairs that the body and the authentication gave.
pub open spec fn with_page(call: CallView, page: Option<Pairs>) -> CallView {
    match page {
        Some(pairs) => CallView { query: call.query + pairs, ..call },
        None => call,
    }
}

/// What the engine does in a state, given what formatting the request
/// gives: at the end nothing; else the call for the state's page, or the
/// error that formatting gave.
pub open spec fn paged(
    formatted: Result<CallView, ErrorView>,
    state: PaginationState<Pairs>,
) -> Option<Result<CallView, ErrorView>> {
    if state is End {
        None
    } else {
        Some(
            match formatted {
                Ok(call) => Ok(with_page(call, page_of(state))),
                Err(error) => Err(error),
            },
        )
    }
}

/// At the end the engine makes no call, whatever formatting would give. In
/// any other state it makes the formatted call with the pairs of the
/// state's page behind all other query pairs, and changes nothing else of
/// it; where formatting fails, the failure is the step.
pub proof fn lemma_paged_call(formatted: Result<CallView, ErrorView>, state: PaginationState<Pairs>)
    ensures
        state is End ==> paged(formatted, state) is None,
        !(state is End) ==> match formatted {
            Ok(call) => paged(formatted, state) == Some(
                Ok::<CallView, ErrorView>(
                    CallView {
                        query: call.query + match page_of(state) {
                            Some(pairs) => pairs,
                            None => Seq::empty(),
                        },
                        ..call
                    },
                ),
            ),
            Err(error) => paged(formatted, state) == Some(Err::<CallView, ErrorView>(error)),
        },
{
    if let Ok(call) = formatted {
        assert(call.query + Seq::<(Seq<char>, Seq<char>)>::empty() =~= call.query);
    }
}

/// A step of the engine as a mathematical value.
pub open spec fn step_view(step: Option<Result<HttpCall, Error>>) -> Option<
    Result<CallView, ErrorView>,
> {
    match step {
        Some(Ok(call)) => Some(Ok(call@)),
        Some(Err(error)) => Some(Err(error@)),
        None => None,
    }
}

impl HttpCall {
    /// Puts the parameters of a page on the call, behind the query pairs
    /// that are there. Pairs with a key that occurs already are added all
    /// the same.
    pub fn add_page(&mut self, page: &PaginationType)
        ensures
            final(self)@ == with_page(old(self)@, Some(page@)),
    {
        match page {
            PaginationType::Query(pairs) => {
                self.append_query(copy_pairs(pairs));
            },
        }
    }
}

/// What the engine does in a state with a result of formatting: at the end
/// nothing; else it puts the state's page on the formatted call, or passes
/// the error on.
pub fn page_step(formatted: Result<HttpCall, Error>, state: &PaginationState<PaginationType>) -> (step:
    Option<Result<HttpCall, Error>>)
    ensures
        step_view(step) == paged(result_view(formatted), state@),
{
    if state.is_end() {
        return None;
    }
    match formatted {
        Ok(call) => {
            let mut call = call;
            match state.page() {
                Some(page) => {
                    call.add_page(page);
                },
                None => {},
            }
            Some(Ok(call))
        },
        Err(error) => Some(Err(error)),
    }
}

/// That `step` is what the engine may do in a state: nothing at the end;
/// else the call for the state's page, made of a result of formatting the
/// request, or the error that formatting gave.
pub open spec fn steps<'a, R, Q, J>(
    client: ClientView,
    request: &'a R,
    to_query: Q,
    to_json: J,
    state: PaginationState<PaginationType>,
    step: Option<Result<HttpCall, Error>>,
) -> bool where
    R: Request,
    Q: FnOnce(&'a R::Body) -> Result<Vec<(String, String)>, String>,
    J: FnOnce(&'a R::Body) -> Result<String, String>,
 {
    if state is End {
        step is None
    } else {
        exists|formatted: Result<HttpCall, Error>|
            #![trigger format_of(client, request, to_query, to_json, formatted)]
            format_of(client, request, to_query, to_json, formatted) && step_view(step) == paged(
                result_view(formatted),
                state@,
            )
    }
}

/// A paginated sequence in progress: the request, the client that formats
/// its calls, the policy, and the state. It takes one call for one page at a
/// time; whoever dispatches the call reports back with [`Pages::accept`] or
/// [`Pages::abort`] before asking for the next.
pub struct Pages<'a, R: PaginatedRequest> {
    client: &'a Client,
    request: &'a R,
    paginator: R::Pager,
    state: PaginationState<PaginationType>,
}

impl Client {
    /// Formats the call for the page that `state` asks for, for a request
    /// given by its parts. At the end there is no call.
    pub fn page_call(
        &self,
        method: Method,
        endpoint: &str,
        headers: Vec<(String, String)>,
        payload: Payload,
        state: &PaginationState<PaginationType>,
    ) -> (step: Option<Result<HttpCall, Error>>)
        ensures
            step_view(step) == paged(
                formatted(self@, method, endpoint@, headers.deep_view(), payload@),
                state@,
            ),
    {
        if state.is_end() {
            return None;
        }
        page_step(self.assemble(method, endpoint, headers, payload), state)
    }

    /// Starts a paginated sequence for a request: the request's policy, in
    /// the state of a start without parameters.
    pub fn send_paginated<'a, R: PaginatedRequest>(&'a self, request: &'a R) -> (pages: Pages<
        'a,
        R,
    >)
        ensures
            pages.client() == *self,
            pages.request() == request,
            call_ensures(R::paginator, (request,), pages.paginator()),
            pages.state() == PaginationState::<PaginationType>::Start(None),
    {
        Pages {
            client: self,
            request,
            paginator: request.paginator(),
            state: PaginationState::Start(None),
        }
    }
}

impl<'a, R: PaginatedRequest> Pages<'a, R> {
    /// The client that formats the calls.
    pub closed spec fn client(&self) -> Client {
        *self.client
    }

    /// The request whose pages are asked for.
    pub closed spec fn request(&self) -> &'a R {
        self.request
    }

    /// The policy that says which page comes next.
    pub closed spec fn paginator(&self) -> R::Pager {
        self.paginator
    }

    /// Where the sequence stands.
    pub closed spec fn state(&self) -> PaginationState<PaginationType> {
        self.state
    }

    /// Where the sequence stands.
    pub fn current(&self) -> (state: &PaginationState<PaginationType>)
        ensures
            *state == self.state(),
    {
        &self.state
    }

    /// Whether the sequence is at its end: no call is left to make.
    pub fn is_done(&self) -> (done: bool)
        ensures
            done == (self.state() is End),
    {
        self.state.is_end()
    }

    /// The next call to dispatch. At the end there is none, and neither the
    /// request nor an encoder is asked for anything. Else the request is
    /// formatted anew, and the pairs of the state's page are put behind the
    /// query pairs of the formatted call; an error of formatting comes in
    /// place of the call.
    pub fn next_call<Q, J>(&self, to_query: Q, to_json: J) -> (step: Option<
        Result<HttpCall, Error>,
    >) where
        Q: FnOnce(&'a R::Body) -> Result<Vec<(String, String)>, String>,
        J: FnOnce(&'a R::Body) -> Result<String, String>,

        requires
            forall|body: &'a R::Body| call_requires(to_query, (body,)),
            forall|body: &'a R::Body| call_requires(to_json, (body,)),
        ensures
            self.state() is End <==> step is None,
            steps(self.client()@, self.request(), to_query, to_json, self.state(), step),
    {
        if self.state.is_end() {
            return None;
        }
        let formatted = self.client.format_request(self.request, to_query, to_json);
        let step = page_step(formatted, &self.state);
        assert(format_of(self.client()@, self.request(), to_query, to_json, formatted));
        step
    }

    /// The next element of the sequence, with `dispatch` as the transport.
    /// At the end there is none, and nothing is asked or called. Else the
    /// call for the state's page is formatted and handed to `dispatch`
    /// once. A decoded response goes to the policy, whose answer is the new
    /// state, and is the element. Any failure is the element too, and ends
    /// the sequence: no page is retried or skipped.
    pub fn next<Q, J, X, D>(&mut self, to_query: Q, to_json: J, dispatch: X, decode: D) -> (element:
        Option<Result<R::Response, Error>>) where
        Q: FnOnce(&'a R::Body) -> Result<Vec<(String, String)>, String>,
        J: FnOnce(&'a R::Body) -> Result<String, String>,
        X: FnOnce(HttpCall) -> Exchange,
        D: FnOnce(String) -> Result<R::Response, String>,

        requires
            forall|body: &'a R::Body| call_requires(to_query, (body,)),
            forall|body: &'a R::Body| call_requires(to_json, (body,)),
            forall|call: HttpCall| call_requires(dispatch, (call,)),
            forall|body: String| call_requires(decode, (body,)),
        ensures
            final(self).client() == old(self).client(),
            final(self).request() == old(self).request(),
            final(self).paginator() == old(self).paginator(),
            old(self).state() is End <==> element is None,
            match element {
                None => final(self).state() is End,
                Some(Err(_)) => final(self).state() is End,
                Some(Ok(response)) => follows(
                    old(self).paginator(),
                    old(self).state(),
                    response,
                    final(self).state(),
                ),
            },
            element matches Some(sent) ==> exists|call: Result<HttpCall, Error>|
                #![trigger exchanges(call, dispatch, decode, sent)]
                steps(
                    old(self).client()@,
                    old(self).request(),
                    to_query,
                    to_json,
                    old(self).state(),
                    Some(call),
                ) && exchanges(call, dispatch, decode, sent),
    {
        let step = self.next_call(to_query, to_json);
        match step {
            None => None,
            Some(call) => {
                let sent = exchange(call, dispatch, decode);
                assert(exchanges(call, dispatch, decode, sent));
                match &sent {
                    Ok(response) => {
                        self.accept(response);
                    },
                    Err(_) => {
                        self.abort();
                    },
                }
                Some(sent)
            },
        }
    }

    /// Takes the decoded response of the call that was dispatched last, and
    /// moves to the state that the policy gives for it. At the end nothing
    /// moves: the policy is not asked, and the end stays the end.
    pub fn accept(&mut self, response: &R::Response)
        ensures
            final(self).client() == old(self).client(),
            final(self).request() == old(self).request(),
            final(self).paginator() == old(self).paginator(),
            old(self).state() is End ==> final(self).state() is End,
            !(old(self).state() is End) ==> follows(
                old(self).paginator(),
                old(self).state(),
                *response,
                final(self).state(),
            ),
    {
        if !self.state.is_end() {
            let next = self.paginator.next(&self.state, response);
            self.state = next;
        }
    }

    /// Ends the sequence after a call that failed: no page is retried or
    /// skipped, and no further call is made.
    pub fn abort(&mut self)
        ensures
            final(self).client() == old(self).client(),
            final(self).request() == old(self).request(),
            final(self).paginator() == old(self).paginator(),
            final(self).state() is End,
    {
        self.state = PaginationState::End;
    }
}

/// That a policy may answer `next` when asked about `state` and `response`.
pub open spec fn follows<T, P: Paginator<T>>(
    paginator: P,
    state: PaginationState<PaginationType>,
    response: T,
    next: PaginationState<PaginationType>,
) -> bool {
    call_ensures(P::next, (&paginator, &state, &response), next)
}

/// A run of the engine: the states it stood in, from a start without
/// parameters on, and the responses that took it from each to the next. A
/// call is made in every state but the last, so none of those is the end.
pub open spec fn is_run<T, P: Paginator<T>>(
    paginator: P,
    states: Seq<PaginationState<PaginationType>>,
    responses: Seq<T>,
) -> bool {
    &&& states.len() == responses.len() + 1
    &&& states[0] == PaginationState::<PaginationType>::Start(None)
    &&& forall|k: int|
        0 <= k < responses.len() ==> !(#[trigger] states[k] is End) && follows(
            paginator,
            states[k],
            responses[k],
            states[k + 1],
        )
}

/// The end is the last state of a run: once a policy has answered with the
/// end, no call is made and no state follows.
pub proof fn lemma_end_is_last<T, P: Paginator<T>>(
    paginator: P,
    states: Seq<PaginationState<PaginationType>>,
    responses: Seq<T>,
    k: int,
)
    requires
        is_run(paginator, states, responses),
        0 <= k < states.len(),
        states[k] is End,
    ensures
        k == states.len() - 1,
{
}

/// A policy that moves forward: whenever it goes from one page to a further
/// page, the further page is of higher rank. The rank tells the pages apart,
/// as a page number does.
pub open spec fn monotonic<T, P: Paginator<T>>(
    paginator: P,
    rank: spec_fn(PaginationState<Pairs>) -> int,
) -> bool {
    forall|
        state: PaginationState<PaginationType>,
        response: T,
        next: PaginationState<PaginationType>,
    |
        #![trigger follows(paginator, state, response, next)]
        follows(paginator, state, response, next) && !(state is End) && !(next is End) ==> rank(
            state@,
        ) < rank(next@)
}

/// A policy that gives one answer: asked twice about the same state and
/// response, it answers the same.
pub open spec fn deterministic<T, P: Paginator<T>>(paginator: P) -> bool {
    forall|
        state: PaginationState<PaginationType>,
        response: T,
        one: PaginationState<PaginationType>,
        other: PaginationState<PaginationType>,
    |
        #![trigger follows(paginator, state, response, one), follows(paginator, state, response, other)]
        follows(paginator, state, response, one) && follows(paginator, state, response, other)
            ==> one == other
}

/// With a policy that moves forward, the pages of a run come in strictly
/// increasing order: of two states in which a call is made, the later one is
/// of higher rank, so no page is asked for twice.
pub proof fn lemma_pages_strictly_increase<T, P: Paginator<T>>(
    paginator: P,
    rank: spec_fn(PaginationState<Pairs>) -> int,
    states: Seq<PaginationState<PaginationType>>,
    responses: Seq<T>,
    i: int,
    j: int,
)
    requires
        is_run(paginator, states, responses),
        monotonic(paginator, rank),
        0 <= i < j < states.len(),
        !(states[j] is End),
    ensures
        rank(states[i]@) < rank(states[j]@),
        states[i]@ != states[j]@,
    decreases j - i,
{
    assert(!(states[j - 1] is End));
    assert(follows(paginator, states[j - 1], responses[j - 1], states[j - 1 + 1]));
    if i < j - 1 {
        lemma_pages_strictly_increase(paginator, rank, states, responses, i, j - 1);
    }
}

/// With a policy that gives one answer, the responses determine the run: two
/// runs over the same responses stand in the same states.
pub proof fn lemma_run_is_determined<T, P: Paginator<T>>(
    paginator: P,
    one: Seq<PaginationState<PaginationType>>,
    other: Seq<PaginationState<PaginationType>>,
    responses: Seq<T>,
)
    requires
        is_run(paginator, one, responses),
        is_run(paginator, other, responses),
        deterministic(paginator),
    ensures
        one == other,
{
    assert forall|k: int| 0 <= k < one.len() implies one[k] == other[k] by {
        lemma_runs_agree(paginator, one, other, responses, k);
    }
    assert(one =~= other);
}

/// Two runs of a policy that gives one answer agree in their state `k`.
proof fn lemma_runs_agree<T, P: Paginator<T>>(
    paginator: P,
    one: Seq<PaginationState<PaginationType>>,
    other: Seq<PaginationState<PaginationType>>,
    responses: Seq<T>,
    k: int,
)
    requires
        is_run(paginator, one, responses),
        is_run(paginator, other, responses),
        deterministic(paginator),
        0 <= k < one.len(),
    ensures
        one[k] == other[k],
    decreases k,
{
    if k > 0 {
        lemma_runs_agree(paginator, one, other, responses, k - 1);
        assert(!(one[k - 1] is End));
        assert(!(other[k - 1] is End));
        assert(follows(paginator, one[k - 1], responses[k - 1], one[k - 1 + 1]));
        assert(follows(paginator, other[k - 1], responses[k - 1], other[k - 1 + 1]));
    }
}

} // verus!
