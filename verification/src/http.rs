use vstd::prelude::*;

verus! {

/// The HTTP statuses that the service answers with.
#[derive(PartialEq, Eq, Structural, Clone, Copy, Debug)]
pub enum StatusCode {
    /// 200 OK
    Success,
    Created,
    Forbidden,
    NotFound,
    RequestTimeout,
    InternalServerError,
}

impl StatusCode {
    /// The numeric code of the status.
    pub open spec fn spec_code(self) -> u16 {
        match self {
            StatusCode::Success => 200,
            StatusCode::Created => 201,
            StatusCode::Forbidden => 403,
            StatusCode::NotFound => 404,
            StatusCode::RequestTimeout => 408,
            StatusCode::InternalServerError => 500,
        }
    }

    pub fn code(&self) -> (c: u16)
        ensures
            c == self.spec_code(),
    {
        match self {
            StatusCode::Success => 200,
            StatusCode::Created => 201,
            StatusCode::Forbidden => 403,
            StatusCode::NotFound => 404,
            StatusCode::RequestTimeout => 408,
            StatusCode::InternalServerError => 500,
        }
    }
}

} // verus!

verus! {

#[derive(PartialEq, Eq, Structural, Clone, Copy, Debug)]
pub enum Method {
    Get,
    Post,
    Delete,
}

/// A request for a client to send: its JSON body, when it has one, is the
/// payload it is built from.
pub struct ClientRequest {
    pub method: Method,
    pub url: String,
    pub headers: Vec<(String, String)>,
}

pub open spec fn headers_view(h: Seq<(String, String)>) -> Seq<(Seq<char>, Seq<char>)> {
    h.map_values(|p: (String, String)| (p.0@, p.1@))
}

pub const JSON_MIME: &'static str = "application/json";

pub const CONTENT_TYPE: &'static str = "Content-Type";

pub const AUTH_HEADER: &'static str = "X-Auth";

pub const FROM_HEADER: &'static str = "From";

pub fn header(name: &str, value: &str) -> (h: (String, String))
    ensures
        h.0@ == name@,
        h.1@ == value@,
{
    (name.to_owned(), value.to_owned())
}

} // verus!
