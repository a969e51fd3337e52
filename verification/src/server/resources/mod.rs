//! What the request handlers share: the answer they give, and the steps by
//! which they talk to the database.
//!
//! A handler is a state machine. It starts with a statement to run; each
//! reply of the database takes it one step further, to another statement or
//! to its answer. Whoever drives it runs the statements.
pub mod book;
pub mod table;
pub mod user;
pub mod user_table;

use vstd::prelude::*;
use crate::http::StatusCode;
use crate::sql::{Statement, StatementView, SqlValue, SqlValueView, Fetch, DbError, DbErrorView, DbEventView};

verus! {

/// A handler's answer: a status and, for some statuses, a content.
#[derive(Debug)]
pub struct ResponseData<T>(pub StatusCode, pub Option<T>);

/// What a handler asks for next.
pub enum Action<T> {
    /// Run this statement and hand its reply back.
    Run(Statement),
    /// The handler is done with this answer, or with the error that stopped it.
    Reply(Result<ResponseData<T>, DbError>),
}

pub enum ActionView<V> {
    Run(StatementView),
    Reply(Result<(StatusCode, Option<V>), DbErrorView>),
}

impl<T: View> View for Action<T> {
    type V = ActionView<T::V>;

    open spec fn view(&self) -> ActionView<T::V> {
        match self {
            Action::Run(s) => ActionView::Run(s@),
            Action::Reply(Ok(ResponseData(status, Some(c)))) => ActionView::Reply(Ok((*status, Some(c@)))),
            Action::Reply(Ok(ResponseData(status, None))) => ActionView::Reply(Ok((*status, None))),
            Action::Reply(Err(e)) => ActionView::Reply(Err(e@)),
        }
    }
}

/// An answer without content.
pub open spec fn answer<V>(status: StatusCode) -> ActionView<V> {
    ActionView::Reply(Ok((status, None)))
}

/// An answer with content.
pub open spec fn answer_with<V>(status: StatusCode, content: V) -> ActionView<V> {
    ActionView::Reply(Ok((status, Some(content))))
}

/// The error that stopped a handler.
pub open spec fn failure<V>(e: DbErrorView) -> ActionView<V> {
    ActionView::Reply(Err(e))
}

/// The replies that a statement run in the given way can get.
pub open spec fn fits(fetch: Fetch, e: DbEventView) -> bool {
    match e {
        DbEventView::Failed(_) => true,
        DbEventView::Fetched(Some(_)) => fetch == Fetch::Optional || fetch == Fetch::One,
        DbEventView::Fetched(None) => fetch == Fetch::Optional,
        DbEventView::FetchedAll(_) => fetch == Fetch::All,
        DbEventView::Executed(_) => fetch == Fetch::Execute,
    }
}

pub fn text(s: &String) -> (v: SqlValue)
    ensures
        v@ == SqlValueView::Text(s@),
{
    SqlValue::Text(s.clone())
}

pub fn statement(sql: &str, params: Vec<SqlValue>, fetch: Fetch) -> (s: Statement)
    ensures
        s.sql@ == sql@,
        s.params == params,
        s.fetch == fetch,
{
    Statement { sql: sql.to_owned(), params, fetch }
}

} // verus!
