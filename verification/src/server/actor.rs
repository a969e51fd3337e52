//! How an answer travels back: the actor that handled a message replies with
//! the handler's answer, or with nothing when the handler failed; the
//! request's handler waits for that reply a few seconds at most.
use vstd::prelude::*;
use crate::http::StatusCode;
use crate::sql::DbError;
use super::resources::ResponseData;

verus! {

/// How long a request waits for the actor's reply, in seconds.
pub const REPLY_TIMEOUT_SECS: u64 = 3;

/// The actor's reply to a message: the answer, or nothing when the handler failed.
pub open spec fn spec_actor_reply<T>(result: Result<ResponseData<T>, DbError>) -> Option<ResponseData<T>> {
    match result {
        Ok(answer) => Some(answer),
        Err(_) => None,
    }
}

pub fn actor_reply<T>(result: Result<ResponseData<T>, DbError>) -> (r: Option<ResponseData<T>>)
    ensures
        r == spec_actor_reply(result),
{
    match result {
        Ok(answer) => Some(answer),
        Err(_) => None,
    }
}

/// What waiting on the reply channel gave.
pub enum Received<T> {
    /// The actor replied.
    Message(T),
    /// The actor dropped the channel without replying.
    Disconnected,
    /// No reply came in time.
    TimedOut,
}

/// The response to a request, from what came back on the reply channel: the
/// actor's answer; `NotFound` when the actor had none; `InternalServerError`
/// when the channel broke; `RequestTimeout` when nothing came in time.
pub open spec fn spec_respond<T>(received: Received<Option<ResponseData<T>>>) -> ResponseData<T> {
    match received {
        Received::Message(Some(answer)) => answer,
        Received::Message(None) => ResponseData(StatusCode::NotFound, None),
        Received::Disconnected => ResponseData(StatusCode::InternalServerError, None),
        Received::TimedOut => ResponseData(StatusCode::RequestTimeout, None),
    }
}

pub fn respond<T>(received: Received<Option<ResponseData<T>>>) -> (r: ResponseData<T>)
    ensures
        r == spec_respond(received),
{
    match received {
        Received::Message(Some(answer)) => answer,
        Received::Message(None) => ResponseData(StatusCode::NotFound, None),
        Received::Disconnected => ResponseData(StatusCode::InternalServerError, None),
        Received::TimedOut => ResponseData(StatusCode::RequestTimeout, None),
    }
}

/// A request whose handler answered gets that answer as its response; one
/// whose handler failed gets `NotFound`.
pub proof fn lemma_answer_reaches_client<T>(result: Result<ResponseData<T>, DbError>)
    ensures
        match result {
            Ok(answer) => spec_respond(Received::Message(spec_actor_reply(result))) == answer,
            Err(_) => spec_respond(Received::Message(spec_actor_reply(result))) == ResponseData::<T>(
                StatusCode::NotFound,
                None,
            ),
        },
{
}

} // verus!
