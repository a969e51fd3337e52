//! Route protection: a request passes when its `From` header names a user and
//! its `X-Auth` header holds that user's token.
use vstd::prelude::*;
use crate::entities::{opt_view, BookEndBorrowByTitlePayload, BookBorrowByTitlePayload, BookBorrowByTitleRequestBody};
use crate::http::StatusCode;
use crate::sql::{Statement, StatementView, DbError, DbErrorView, DbEvent, DbEventView};
use super::resources::fits;
use super::resources::user::{check_access_token, check_access_token_statement, check_access_token_statement_view, spec_check_access_token};
use crate::sql::Fetch;

verus! {

/// What the middleware does with a request's headers.
pub enum AuthDecision {
    /// Ask the database whether the user holds the token.
    Check(Statement),
    /// Answer right away with this status.
    Respond(StatusCode),
}

pub enum AuthDecisionView {
    Check(StatementView),
    Respond(StatusCode),
}

impl View for AuthDecision {
    type V = AuthDecisionView;

    open spec fn view(&self) -> AuthDecisionView {
        match self {
            AuthDecision::Check(s) => AuthDecisionView::Check(s@),
            AuthDecision::Respond(c) => AuthDecisionView::Respond(*c),
        }
    }
}

/// Given the first value of the `From` header and of the `X-Auth` header:
/// with both, the token is checked; without either, the request is `Forbidden`.
pub fn auth_middleware(from: &Option<String>, x_auth: &Option<String>) -> (d: AuthDecision)
    ensures
        match (opt_view(*from), opt_view(*x_auth)) {
            (Some(email), Some(token)) => d@ == AuthDecisionView::Check(check_access_token_statement_view(email, token)),
            _ => d@ == AuthDecisionView::Respond(StatusCode::Forbidden),
        },
{
    match (from, x_auth) {
        (Some(email), Some(token)) => AuthDecision::Check(check_access_token_statement(email, token)),
        _ => AuthDecision::Respond(StatusCode::Forbidden),
    }
}

/// The status that the result of the token check gives: `Success` lets the
/// request through.
pub open spec fn spec_auth_verdict(result: Result<bool, DbErrorView>) -> StatusCode {
    match result {
        Ok(true) => StatusCode::Success,
        Ok(false) => StatusCode::Forbidden,
        Err(_) => StatusCode::InternalServerError,
    }
}

/// The status, from the database's reply to the token check.
pub fn auth_verdict(reply: DbEvent) -> (c: StatusCode)
    requires
        fits(Fetch::One, reply@),
    ensures
        c == spec_auth_verdict(spec_check_access_token(reply@)),
{
    match check_access_token(reply) {
        Ok(true) => StatusCode::Success,
        Ok(false) => StatusCode::Forbidden,
        Err(_) => StatusCode::InternalServerError,
    }
}

/// The token that a route requires, from the first value of the `X-Auth` header.
pub fn require_auth_token(x_auth: &Option<String>) -> (r: (StatusCode, Option<String>))
    ensures
        match opt_view(*x_auth) {
            Some(t) => r.0 == StatusCode::Success && opt_view(r.1) == Some(t),
            None => r.0 == StatusCode::Forbidden && r.1 is None,
        },
{
    match x_auth {
        Some(t) => (StatusCode::Success, Some(t.clone())),
        None => (StatusCode::Forbidden, None),
    }
}

/// The token that a guarded route works with, from the status of the token
/// check and the first value of the `X-Auth` header: the token once the check
/// let the request through; otherwise the status of the refusal, and no token.
pub open spec fn spec_authorize(verdict: StatusCode, x_auth: Option<Seq<char>>) -> (StatusCode, Option<Seq<char>>) {
    if verdict == StatusCode::Success {
        match x_auth {
            Some(t) => (StatusCode::Success, Some(t)),
            None => (StatusCode::Forbidden, None),
        }
    } else {
        (verdict, None)
    }
}

pub fn authorize(verdict: StatusCode, x_auth: &Option<String>) -> (r: (StatusCode, Option<String>))
    ensures
        r.0 == spec_authorize(verdict, opt_view(*x_auth)).0,
        opt_view(r.1) == spec_authorize(verdict, opt_view(*x_auth)).1,
{
    if verdict == StatusCode::Success {
        require_auth_token(x_auth)
    } else {
        (verdict, None)
    }
}

/// The payload of a request to end a borrow. It holds the book's title and the
/// requester's token, and is made only for a request that passed the token
/// check; any other request gets the status of its refusal.
pub fn extract_end_loan(verdict: StatusCode, x_auth: &Option<String>, title: String) -> (r: Result<BookEndBorrowByTitlePayload, StatusCode>)
    ensures
        match spec_authorize(verdict, opt_view(*x_auth)) {
            (StatusCode::Success, Some(token)) => r matches Ok(p) && p.title@ == title@ && p.access_token@ == token,
            (status, _) => r == Err::<BookEndBorrowByTitlePayload, StatusCode>(status),
        },
{
    match authorize(verdict, x_auth) {
        (StatusCode::Success, Some(access_token)) => Ok(BookEndBorrowByTitlePayload { title, access_token }),
        (status, _) => Err(status),
    }
}

/// The payload of a borrow. It holds the book's title and what the request's
/// body holds, and is made only for a request that passed the token check;
/// any other request gets the status of its refusal.
pub fn extract_lease_book(
    verdict: StatusCode,
    x_auth: &Option<String>,
    title: String,
    body: BookBorrowByTitleRequestBody,
) -> (r: Result<BookBorrowByTitlePayload, StatusCode>)
    ensures
        match spec_authorize(verdict, opt_view(*x_auth)) {
            (StatusCode::Success, Some(_)) => r matches Ok(p) && p.title@ == title@ && p.borrow_length
                == body.borrow_length && p.borrow_id@ == body.borrow_id@,
            (status, _) => r == Err::<BookBorrowByTitlePayload, StatusCode>(status),
        },
{
    match authorize(verdict, x_auth) {
        (StatusCode::Success, Some(_)) => Ok(BookBorrowByTitlePayload {
            title,
            borrow_length: body.borrow_length,
            borrow_id: body.borrow_id,
        }),
        (status, _) => Err(status),
    }
}

/// Whether a request to create a book may have its body read: only with a
/// token; otherwise the status of the refusal.
pub fn extract_post(auth: &(StatusCode, Option<String>)) -> (r: Result<(), StatusCode>)
    ensures
        match (auth.0, auth.1) {
            (StatusCode::Success, Some(_)) => r is Ok,
            _ => r == Err::<(), StatusCode>(auth.0),
        },
{
    match auth {
        (StatusCode::Success, Some(_)) => Ok(()),
        (status, _) => Err(*status),
    }
}

/// A request passes the middleware only when the database confirmed that
/// the user holds the token; a failed check is an internal error.
pub proof fn lemma_only_confirmed_tokens_pass(result: Result<bool, DbErrorView>)
    ensures
        (spec_auth_verdict(result) == StatusCode::Success) == (result == Ok::<bool, DbErrorView>(true)),
        (spec_auth_verdict(result) == StatusCode::InternalServerError) == (result is Err),
{
}

/// A guarded route works with a token only when the database confirmed that
/// the user named by `From` holds it: a token that no such user holds is
/// refused with `Forbidden`, a failed check with an internal error, and so no
/// borrow and no end of borrow is ever extracted for them.
pub proof fn lemma_guarded_routes_need_confirmed_tokens(reply: DbEventView, x_auth: Option<Seq<char>>)
    ensures
        (spec_authorize(spec_auth_verdict(spec_check_access_token(reply)), x_auth).0 == StatusCode::Success) == (
        spec_check_access_token(reply) == Ok::<bool, DbErrorView>(true) && x_auth is Some),
        spec_check_access_token(reply) == Ok::<bool, DbErrorView>(false) ==> spec_authorize(
            spec_auth_verdict(spec_check_access_token(reply)),
            x_auth,
        ) == (StatusCode::Forbidden, None::<Seq<char>>),
        spec_authorize(StatusCode::Forbidden, x_auth) == (StatusCode::Forbidden, None::<Seq<char>>),
{
}

} // verus!
