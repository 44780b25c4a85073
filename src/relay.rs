//! The relay: the decisions of the worker that owns a connection. The worker
//! receives requests, runs them one at a time, and answers each in the order
//! it was received. This module decides; the worker performs the calls.

use vstd::prelude::*;

use crate::fetch::SGDBFetchResult;
use crate::model::{DbError, DbErrorKind, SGDBTable};

verus! {

/// A request from the caller to the relay.
#[derive(Debug)]
pub enum Message<ID> {
    FetchTables { schema: String },
    FetchAll(ID, String, Option<Vec<String>>),
    Close,
}

/// A response from the relay to the caller.
#[derive(Debug)]
pub enum MessageResponse<ID> {
    FetchAllResult(ID, Result<SGDBFetchResult, DbError>),
    TablesResult(Result<Vec<SGDBTable>, DbError>),
    /// The connection could not be established; the relay has stopped and
    /// sends nothing more.
    ConnectionFailed(DbError),
}

/// What the worker must do next.
#[derive(Debug)]
pub enum RelayAction {
    /// Run the query with its positional parameters, then call `finish_fetch`.
    FetchAll { query: String, params: Option<Vec<String>> },
    /// List the schema's tables, then call `finish_tables`.
    ListTables { schema: String },
    /// Leave the loop.
    Stop,
}

/// Where the relay stands.
#[derive(Debug)]
pub enum RelayPhase<ID> {
    /// Waiting for the connection to be established.
    Connecting,
    /// Ready to take the next request.
    Idle,
    /// Running the query of the `FetchAll` that carried this id.
    Fetching(ID),
    /// Running a table listing.
    Listing,
    /// Terminal.
    Stopped,
}

/// A request that expects an answer, as the log records it.
pub enum RequestKind<ID> {
    FetchAll(ID),
    Tables(Seq<char>),
}

/// An answer, as the log records it.
pub enum ResponseKind<ID> {
    FetchAll(ID),
    Tables,
    ConnectionFailed,
}

/// `resp` is the answer owed to `req`.
pub open spec fn answers<ID>(req: RequestKind<ID>, resp: ResponseKind<ID>) -> bool {
    match req {
        RequestKind::FetchAll(id) => resp == ResponseKind::FetchAll(id),
        RequestKind::Tables(_) => resp == ResponseKind::<ID>::Tables,
    }
}

pub open spec fn response_kind<ID>(r: MessageResponse<ID>) -> ResponseKind<ID> {
    match r {
        MessageResponse::FetchAllResult(id, _) => ResponseKind::FetchAll(id),
        MessageResponse::TablesResult(_) => ResponseKind::Tables,
        MessageResponse::ConnectionFailed(_) => ResponseKind::ConnectionFailed,
    }
}

/// The error that reports a failed query or listing.
pub open spec fn query_error(e: DbError, cause: Seq<char>) -> bool {
    e.kind == DbErrorKind::Query && e.message@ == cause
}

/// The relay's state, with a log of the requests it accepted and the answers
/// it gave.
pub struct SGDBRelay<ID> {
    pub phase: RelayPhase<ID>,
    pub requests: Ghost<Seq<RequestKind<ID>>>,
    pub responses: Ghost<Seq<ResponseKind<ID>>>,
}

impl<ID> SGDBRelay<ID> {
    /// Answers are given in the order of the requests: the `i`-th answer
    /// answers the `i`-th request, and at most the latest request is still
    /// waiting for its answer.
    pub open spec fn well_formed(&self) -> bool {
        let reqs = self.requests@;
        let resps = self.responses@;
        &&& forall|i: int| 0 <= i < resps.len() ==> answers(reqs[i], #[trigger] resps[i])
        &&& match self.phase {
            RelayPhase::Fetching(id) => resps.len() + 1 == reqs.len() && reqs.last() == RequestKind::FetchAll(id),
            RelayPhase::Listing => resps.len() + 1 == reqs.len() && reqs.last() is Tables,
            _ => resps.len() == reqs.len(),
        }
    }

    pub fn new() -> (r: SGDBRelay<ID>)
        ensures
            r.well_formed(),
            r.phase is Connecting,
            r.requests@.len() == 0,
            r.responses@.len() == 0,
    {
        SGDBRelay { phase: RelayPhase::Connecting, requests: Ghost(Seq::empty()), responses: Ghost(Seq::empty()) }
    }

    /// Whether the relay is ready for the next request.
    pub fn is_idle(&self) -> (r: bool)
        ensures
            r == self.phase is Idle,
    {
        match self.phase {
            RelayPhase::Idle => true,
            _ => false,
        }
    }

    /// The connection is live: requests may come.
    pub fn connected(&mut self)
        requires
            old(self).well_formed(),
            old(self).phase is Connecting,
        ensures
            final(self).well_formed(),
            final(self).phase is Idle,
            final(self).requests == old(self).requests,
            final(self).responses == old(self).responses,
    {
        self.phase = RelayPhase::Idle;
    }

    /// The connection could not be established, or its engine has no
    /// adapter: the relay stops, and the one thing it sends is that error.
    pub fn connect_failed(&mut self, error: DbError) -> (r: MessageResponse<ID>)
        requires
            old(self).well_formed(),
            old(self).phase is Connecting,
        ensures
            final(self).well_formed(),
            final(self).phase is Stopped,
            r == MessageResponse::<ID>::ConnectionFailed(error),
            final(self).requests == old(self).requests,
            final(self).responses == old(self).responses,
    {
        self.phase = RelayPhase::Stopped;
        MessageResponse::ConnectionFailed(error)
    }

    /// Takes the next request. `Close` stops the relay; the others become the
    /// work to run before anything else is taken.
    pub fn on_message(&mut self, msg: Message<ID>) -> (r: RelayAction)
        requires
            old(self).well_formed(),
            old(self).phase is Idle,
        ensures
            final(self).well_formed(),
            final(self).responses == old(self).responses,
            match msg {
                Message::Close => r is Stop && final(self).phase is Stopped
                    && final(self).requests == old(self).requests,
                Message::FetchAll(id, query, params) => r matches RelayAction::FetchAll { query: q, params: p }
                    && q == query && p == params
                    && final(self).phase == RelayPhase::Fetching(id)
                    && final(self).requests@ == old(self).requests@.push(RequestKind::FetchAll(id)),
                Message::FetchTables { schema } => r matches RelayAction::ListTables { schema: s }
                    && s == schema && final(self).phase is Listing
                    && final(self).requests@ == old(self).requests@.push(RequestKind::Tables(schema@)),
            },
    {
        match msg {
            Message::Close => {
                self.phase = RelayPhase::Stopped;
                RelayAction::Stop
            },
            Message::FetchAll(id, query, params) => {
                let ghost req = RequestKind::FetchAll(id);
                self.requests = Ghost(self.requests@.push(req));
                self.phase = RelayPhase::Fetching(id);
                RelayAction::FetchAll { query, params }
            },
            Message::FetchTables { schema } => {
                self.requests = Ghost(self.requests@.push(RequestKind::Tables(schema@)));
                self.phase = RelayPhase::Listing;
                RelayAction::ListTables { schema }
            },
        }
    }

    /// The inbound channel closed: the relay stops.
    pub fn on_inbox_closed(&mut self)
        requires
            old(self).well_formed(),
            old(self).phase is Idle,
        ensures
            final(self).well_formed(),
            final(self).phase is Stopped,
            final(self).requests == old(self).requests,
            final(self).responses == old(self).responses,
    {
        self.phase = RelayPhase::Stopped;
    }

    /// The query of the pending `FetchAll` finished. The answer echoes its id
    /// and carries the result, or the failure as a query error; the relay is
    /// ready again either way.
    pub fn finish_fetch(&mut self, outcome: Result<SGDBFetchResult, String>) -> (r: MessageResponse<ID>)
        requires
            old(self).well_formed(),
            old(self).phase is Fetching,
        ensures
            final(self).well_formed(),
            final(self).phase is Idle,
            final(self).requests == old(self).requests,
            final(self).responses@ == old(self).responses@.push(response_kind(r)),
            old(self).phase matches RelayPhase::Fetching(id) && r matches MessageResponse::FetchAllResult(rid, res)
                && rid == id
                && match outcome {
                    Ok(v) => res == Ok::<SGDBFetchResult, DbError>(v),
                    Err(cause) => res matches Err(e) && query_error(e, cause@),
                },
    {
        let mut phase = RelayPhase::Idle;
        std::mem::swap(&mut self.phase, &mut phase);
        match phase {
            RelayPhase::Fetching(id) => {
                let res = match outcome {
                    Ok(v) => Ok(v),
                    Err(cause) => Err(DbError::new(DbErrorKind::Query, cause)),
                };
                let r = MessageResponse::FetchAllResult(id, res);
                self.responses = Ghost(self.responses@.push(response_kind(r)));
                r
            },
            _ => {
                proof {
                    assert(false);
                }
                MessageResponse::TablesResult(Ok(Vec::new()))
            },
        }
    }

    /// The pending table listing finished; the answer carries the tables, or
    /// the failure as a query error.
    pub fn finish_tables(&mut self, outcome: Result<Vec<SGDBTable>, String>) -> (r: MessageResponse<ID>)
        requires
            old(self).well_formed(),
            old(self).phase is Listing,
        ensures
            final(self).well_formed(),
            final(self).phase is Idle,
            final(self).requests == old(self).requests,
            final(self).responses@ == old(self).responses@.push(response_kind(r)),
            r matches MessageResponse::TablesResult(res) && match outcome {
                Ok(v) => res == Ok::<Vec<SGDBTable>, DbError>(v),
                Err(cause) => res matches Err(e) && query_error(e, cause@),
            },
    {
        self.phase = RelayPhase::Idle;
        let res = match outcome {
            Ok(v) => Ok(v),
            Err(cause) => Err(DbError::new(DbErrorKind::Query, cause)),
        };
        let r = MessageResponse::TablesResult(res);
        self.responses = Ghost(self.responses@.push(response_kind(r)));
        r
    }
}

/// Answers leave in the order their requests arrived: in every reachable
/// relay state, the `i`-th answer sent answers the `i`-th request taken, and
/// no request is overtaken by a later one.
pub proof fn lemma_answers_in_request_order<ID>(relay: SGDBRelay<ID>)
    requires
        relay.well_formed(),
    ensures
        relay.responses@.len() <= relay.requests@.len(),
        forall|i: int| 0 <= i < relay.responses@.len() ==> answers(relay.requests@[i], #[trigger] relay.responses@[i]),
{
}

} // verus!
