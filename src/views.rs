//! Caller-side state around requests: what a view waits for and how it routes
//! answers.

use vstd::prelude::*;

use crate::meta::FetchResult;
use crate::model::{Connection, DbError, SGDBKind, SGDBTable};
use crate::relay::MessageResponse;

verus! {

/// The state of one request slot of a view.
#[derive(Debug)]
pub enum QueryState<T> {
    Success(T),
    Waiting,
    Ready,
    Error(String),
}

impl<T> Default for QueryState<T> {
    fn default() -> (r: QueryState<T>)
        ensures
            r is Ready,
    {
        QueryState::Ready
    }
}

impl<T> QueryState<T> {
    /// The slot's state once a request has been sent for it.
    pub fn waiting() -> (r: QueryState<T>)
        ensures
            r is Waiting,
    {
        QueryState::Waiting
    }

    /// The slot's state once the answer arrived: the result, or the failure's
    /// message.
    pub fn from_result(res: Result<T, DbError>) -> (r: QueryState<T>)
        ensures
            match res {
                Ok(v) => r == QueryState::Success(v),
                Err(e) => r matches QueryState::Error(m) && m@ == e.message@,
            },
    {
        match res {
            Ok(v) => QueryState::Success(v),
            Err(e) => QueryState::Error(e.message),
        }
    }
}

/// The request slots of a view: the last query's result and the schema's
/// tables.
pub struct ViewData {
    pub fetch_result: QueryState<FetchResult>,
    pub tables: QueryState<Vec<SGDBTable>>,
}

impl Default for ViewData {
    fn default() -> (r: ViewData)
        ensures
            r.fetch_result is Ready,
            r.tables is Ready,
    {
        ViewData { fetch_result: QueryState::Ready, tables: QueryState::Ready }
    }
}

impl ViewData {
    /// Files an answer of the relay in the slot it belongs to: a query result
    /// is presented under default meta columns, a listing fills the tables, a
    /// failure shows its message, and a lost connection fails both slots.
    pub fn process_db_response<ID>(&mut self, message: MessageResponse<ID>)
        ensures
            match message {
                MessageResponse::FetchAllResult(_, Ok(res)) => final(self).fetch_result matches QueryState::Success(f)
                    && f.presents(res) && final(self).tables == old(self).tables,
                MessageResponse::FetchAllResult(_, Err(e)) => final(self).fetch_result matches QueryState::Error(m)
                    && m@ == e.message@ && final(self).tables == old(self).tables,
                MessageResponse::TablesResult(Ok(tables)) => final(self).tables == QueryState::Success(tables)
                    && final(self).fetch_result == old(self).fetch_result,
                MessageResponse::TablesResult(Err(e)) => final(self).tables matches QueryState::Error(m)
                    && m@ == e.message@ && final(self).fetch_result == old(self).fetch_result,
                MessageResponse::ConnectionFailed(e) => (final(self).tables matches QueryState::Error(m)
                    && m@ == e.message@) && (final(self).fetch_result matches QueryState::Error(m2) && m2@ == e.message@),
            },
    {
        match message {
            MessageResponse::FetchAllResult(_, Ok(res)) => {
                self.fetch_result = QueryState::Success(FetchResult::from_sgdb(res));
            },
            MessageResponse::FetchAllResult(_, Err(e)) => {
                self.fetch_result = QueryState::from_result(Err(e));
            },
            MessageResponse::TablesResult(res) => {
                self.tables = QueryState::from_result(res);
            },
            MessageResponse::ConnectionFailed(e) => {
                self.fetch_result = QueryState::Error(e.message.clone());
                self.tables = QueryState::Error(e.message);
            },
        }
    }
}

/// The correlation id a view attaches to its `FetchAll` requests.
#[derive(Clone, Debug, PartialEq)]
pub enum MessageID {
    FetchAllResult,
    MetaQueryResult { meta_query_id: String },
}

/// The view on screen, with the request slots it owns.
pub enum CurrentView {
    HelloView,
    DBView(ViewData),
    MetaQueriesView(ViewData),
}

/// The view shown before any connection is chosen.
#[derive(Clone, Copy, Debug, PartialEq, Eq, Structural, Default)]
pub struct HelloView;

/// The fields of the form that adds a connection.
#[derive(Clone, Debug, Default)]
pub struct NewConnectionWindow {
    pub open: bool,
    pub name: String,
    pub uri: String,
    pub kind: SGDBKind,
    pub schema: String,
}

impl NewConnectionWindow {
    /// The connection the form describes.
    pub fn connection(&self) -> (r: Connection)
        ensures
            r.kind == self.kind,
            r.uri@ == self.uri@,
            r.schema@ == self.schema@,
    {
        Connection::new(self.kind, self.uri.clone(), self.schema.clone())
    }
}

} // verus!
