//! Fan-out: several requests of one kind sent through one client, and their
//! results handed on in the order in which the requests were given, in
//! whatever order the answers come in.
use crate::call::HttpCall;
use crate::client::{format_of, sends, Client};
use crate::error::Error;
use crate::request::Request;
use crate::response::Exchange;
use vstd::prelude::*;

verus! {

/// A batch of requests in progress. Each request has a slot by its
/// position; a result is recorded when it arrives and taken out when its
/// turn has come. A failed request fills its slot like any other: it does
/// not end the batch.
pub struct Batch<'a, R: Request> {
    client: &'a Client,
    requests: Vec<&'a R>,
    slots: Vec<Option<Result<R::Response, Error>>>,
    taken: usize,
}

impl Client {
    /// Starts a batch for the given requests: none is sent yet, and no
    /// result has arrived. The results come out in the order of the
    /// requests.
    pub fn send_all<'a, R: Request>(&'a self, requests: Vec<&'a R>) -> (batch: Batch<'a, R>)
        ensures
            batch.client() == *self,
            batch.requests() == requests@,
            batch.taken() == 0,
            batch.waiting() == Seq::new(
                requests@.len(),
                |i: int| None::<Result<R::Response, Error>>,
            ),
    {
        let count = requests.len();
        let mut slots: Vec<Option<Result<R::Response, Error>>> = Vec::new();
        let mut i: usize = 0;
        while i < count
            invariant
                i <= count,
                slots@ == Seq::new(i as nat, |k: int| None::<Result<R::Response, Error>>),
            decreases count - i,
        {
            slots.push(None);
            assert(slots@ =~= Seq::new(
                (i + 1) as nat,
                |k: int| None::<Result<R::Response, Error>>,
            ));
            i += 1;
        }
        Batch { client: self, requests, slots, taken: 0 }
    }
}

impl<'a, R: Request> Batch<'a, R> {
    /// The client that the requests are sent through.
    pub closed spec fn client(&self) -> Client {
        *self.client
    }

    /// The requests of the batch, in their order.
    pub closed spec fn requests(&self) -> Seq<&'a R> {
        self.requests@
    }

    /// What has arrived and waits for its turn, by position.
    pub closed spec fn waiting(&self) -> Seq<Option<Result<R::Response, Error>>> {
        self.slots@
    }

    /// How many results have been taken.
    pub closed spec fn taken(&self) -> nat {
        self.taken as nat
    }

    /// How many requests the batch has.
    pub open spec fn len(&self) -> nat {
        self.requests().len()
    }

    /// Whether the result for a position can be recorded: there is such a
    /// request, its result has not been taken, and none waits for it.
    pub open spec fn open_at(&self, position: int) -> bool {
        self.taken() <= position < self.len() && self.waiting()[position] is None
    }

    /// Every request has a slot; nothing waits in the slot of a result that
    /// was taken, and no more is taken than there are requests.
    #[verifier::type_invariant]
    pub closed spec fn well_formed(&self) -> bool {
        &&& self.slots.len() == self.requests@.len()
        &&& self.taken <= self.slots.len()
        &&& forall|i: int| 0 <= i < self.taken ==> self.slots[i] is None
    }

    /// How many requests the batch has. Each has a slot, and no more
    /// results have been taken than there are requests.
    pub fn count(&self) -> (count: usize)
        ensures
            count == self.len(),
            self.waiting().len() == self.len(),
            self.taken() <= self.len(),
    {
        proof {
            use_type_invariant(self);
        }
        self.requests.len()
    }

    /// Whether every result has been taken.
    pub fn is_finished(&self) -> (finished: bool)
        ensures
            finished == (self.taken() == self.len()),
    {
        proof {
            use_type_invariant(self);
        }
        self.taken == self.slots.len()
    }

    /// The call for the request at a position, or the error of formatting
    /// it. There is none where the batch has no such request.
    pub fn call<Q, J>(&self, position: usize, to_query: Q, to_json: J) -> (call: Option<
        Result<HttpCall, Error>,
    >) where
        Q: FnOnce(&'a R::Body) -> Result<Vec<(String, String)>, String>,
        J: FnOnce(&'a R::Body) -> Result<String, String>,

        requires
            forall|body: &'a R::Body| call_requires(to_query, (body,)),
            forall|body: &'a R::Body| call_requires(to_json, (body,)),
        ensures
            call is Some <==> position < self.len(),
            call matches Some(formatted) ==> format_of(
                self.client()@,
                self.requests()[position as int],
                to_query,
                to_json,
                formatted,
            ),
    {
        if position >= self.requests.len() {
            return None;
        }
        Some(self.client.format_request(self.requests[position], to_query, to_json))
    }

    /// Sends the request at a position, with `dispatch` as the transport,
    /// and records what came of it. Nothing is sent, and nothing changes,
    /// where the result for the position cannot be recorded.
    pub fn send<Q, J, X, D>(
        &mut self,
        position: usize,
        to_query: Q,
        to_json: J,
        dispatch: X,
        decode: D,
    ) -> (recorded: bool) where
        Q: FnOnce(&'a R::Body) -> Result<Vec<(String, String)>, String>,
        J: FnOnce(&'a R::Body) -> Result<String, String>,
        X: FnOnce(HttpCall) -> Exchange,
        D: FnOnce(String) -> Result<R::Response, String>,

        requires
            forall|body: &'a R::Body| call_requires(to_query, (body,)),
            forall|body: &'a R::Body| call_requires(to_json, (body,)),
            forall|call: HttpCall| call_requires(dispatch, (call,)),
            forall|body: String| call_requires(decode, (body,)),
        ensures
            recorded == old(self).open_at(position as int),
            final(self).client() == old(self).client(),
            final(self).requests() == old(self).requests(),
            final(self).taken() == old(self).taken(),
            !recorded ==> final(self).waiting() == old(self).waiting(),
            recorded ==> exists|sent: Result<R::Response, Error>|
                #![trigger old(self).waiting().update(position as int, Some(sent))]
                sends(
                    old(self).client()@,
                    old(self).requests()[position as int],
                    to_query,
                    to_json,
                    dispatch,
                    decode,
                    sent,
                ) && final(self).waiting() == old(self).waiting().update(
                    position as int,
                    Some(sent),
                ),
    {
        proof {
            use_type_invariant(&*self);
        }
        if position < self.taken || position >= self.slots.len() {
            return false;
        }
        if self.slots[position].is_some() {
            return false;
        }
        let sent = self.client.send(self.requests[position], to_query, to_json, dispatch, decode);
        let recorded = self.complete(position, sent);
        assert(final(self).waiting() == old(self).waiting().update(position as int, Some(sent)));
        recorded
    }

    /// Records the result of the request at a position. It is refused, and
    /// nothing changes, where there is no such request, where its result has
    /// been taken, or where one waits already.
    pub fn complete(&mut self, position: usize, result: Result<R::Response, Error>) -> (recorded:
        bool)
        ensures
            recorded == old(self).open_at(position as int),
            final(self).client() == old(self).client(),
            final(self).requests() == old(self).requests(),
            final(self).taken() == old(self).taken(),
            final(self).waiting() == if recorded {
                old(self).waiting().update(position as int, Some(result))
            } else {
                old(self).waiting()
            },
    {
        proof {
            use_type_invariant(&*self);
        }
        if position < self.taken || position >= self.slots.len() {
            return false;
        }
        if self.slots[position].is_some() {
            return false;
        }
        self.slots[position] = Some(result);
        true
    }

    /// Takes the next result in the order of the requests, if it has
    /// arrived. A result that arrived early waits until all before it have
    /// been taken.
    pub fn next(&mut self) -> (item: Option<Result<R::Response, Error>>)
        ensures
            item == if old(self).taken() < old(self).len() {
                old(self).waiting()[old(self).taken() as int]
            } else {
                None
            },
            final(self).client() == old(self).client(),
            final(self).requests() == old(self).requests(),
            final(self).taken() == if item is Some {
                old(self).taken() + 1
            } else {
                old(self).taken()
            },
            final(self).waiting() == if item is Some {
                old(self).waiting().update(old(self).taken() as int, None)
            } else {
                old(self).waiting()
            },
    {
        proof {
            use_type_invariant(&*self);
        }
        if self.taken >= self.slots.len() {
            return None;
        }
        let item = self.slots[self.taken].take();
        if item.is_some() {
            self.taken = self.taken + 1;
        }
        assert(self.slots@ =~= old(self).slots@.update(old(self).taken as int, None));
        item
    }
}

} // verus!
