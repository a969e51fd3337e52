//! A book looked up by its title: the statement, the decoding of its reply,
//! the actor's reply and the response.
use vstd::prelude::*;
use crate::http::StatusCode;
use crate::sql::{
    Statement, StatementView, SqlValueView, Fetch, DbError, DbErrorView, DbEvent, DbEventView,
    ColumnView, decode_int, decode_text, get_int, get_text,
};
use crate::server::resources::{fits, text, statement};
use crate::server::actor::Received;
use super::super::entities::{Book, BookView};

verus! {

pub const FETCH_BY_TITLE_SQL: &'static str = "SELECT * FROM Book WHERE title=$1";

pub open spec fn fetch_one_by_title_statement_view(title: Seq<char>) -> StatementView {
    StatementView { sql: FETCH_BY_TITLE_SQL@, params: seq![SqlValueView::Text(title)], fetch: Fetch::Optional }
}

pub fn fetch_one_by_title_statement(title: &String) -> (s: Statement)
    ensures
        s@ == fetch_one_by_title_statement_view(title@),
{
    let s = statement(FETCH_BY_TITLE_SQL, vec![text(title)], Fetch::Optional);
    assert(s@.params =~= seq![SqlValueView::Text(title@)]);
    s
}

pub open spec fn spec_book_from_row(cols: Seq<ColumnView>) -> Result<BookView, DbErrorView> {
    match decode_int(cols, "id"@) {
        Err(e) => Err(e),
        Ok(id) => match decode_text(cols, "title"@) {
            Err(e) => Err(e),
            Ok(title) => Ok(BookView { id, title }),
        },
    }
}

/// The book, if its row was found, from the database's reply.
pub open spec fn spec_fetch_one_by_title(reply: DbEventView) -> Result<Option<BookView>, DbErrorView> {
    match reply {
        DbEventView::Failed(e) => Err(e),
        DbEventView::Fetched(None) => Ok(None),
        DbEventView::Fetched(Some(cols)) => match spec_book_from_row(cols) {
            Ok(b) => Ok(Some(b)),
            Err(e) => Err(e),
        },
        _ => Err(DbErrorView::RowNotFound),
    }
}

pub fn fetch_one_by_title(reply: DbEvent) -> (r: Result<Option<Book>, DbError>)
    requires
        fits(Fetch::Optional, reply@),
    ensures
        match r {
            Ok(Some(b)) => spec_fetch_one_by_title(reply@) == Ok::<Option<BookView>, DbErrorView>(Some(b@)),
            Ok(None) => spec_fetch_one_by_title(reply@) == Ok::<Option<BookView>, DbErrorView>(None),
            Err(e) => spec_fetch_one_by_title(reply@) == Err::<Option<BookView>, DbErrorView>(e@),
        },
{
    match reply {
        DbEvent::Failed(e) => Err(e),
        DbEvent::Fetched(None) => Ok(None),
        DbEvent::Fetched(Some(row)) => {
            let id = match get_int(&row, "id") {
                Ok(v) => v,
                Err(e) => return Err(e),
            };
            let title = match get_text(&row, "title") {
                Ok(v) => v,
                Err(e) => return Err(e),
            };
            Ok(Some(Book { id, title }))
        },
        _ => Err(DbError::RowNotFound),
    }
}

/// The actor's reply: the book if found; nothing when the lookup failed.
pub fn actor_reply(result: Result<Option<Book>, DbError>) -> (r: Option<Book>)
    ensures
        match result {
            Ok(found) => r == found,
            Err(_) => r is None,
        },
{
    match result {
        Ok(found) => found,
        Err(_) => None,
    }
}

/// The response to the lookup: the book with `Success`; `NotFound` without
/// one; `InternalServerError` when the channel broke; `RequestTimeout` when
/// nothing came in time.
pub fn get(received: Received<Option<Book>>) -> (r: (StatusCode, Option<Book>))
    ensures
        match received {
            Received::Message(Some(b)) => r.0 == StatusCode::Success && r.1 == Some(b),
            Received::Message(None) => r.0 == StatusCode::NotFound && r.1 is None,
            Received::Disconnected => r.0 == StatusCode::InternalServerError && r.1 is None,
            Received::TimedOut => r.0 == StatusCode::RequestTimeout && r.1 is None,
        },
{
    match received {
        Received::Message(Some(b)) => (StatusCode::Success, Some(b)),
        Received::Message(None) => (StatusCode::NotFound, None),
        Received::Disconnected => (StatusCode::InternalServerError, None),
        Received::TimedOut => (StatusCode::RequestTimeout, None),
    }
}

} // verus!
