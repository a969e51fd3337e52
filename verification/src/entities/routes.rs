//! The routes of the service, and the requests a client sends to them.
use vstd::prelude::*;
use crate::http::{ClientRequest, Method, header, headers_view, JSON_MIME, CONTENT_TYPE, AUTH_HEADER, FROM_HEADER};
use super::{User, BookBorrowByTitlePayload, BookEndBorrowByTitlePayload, BookCreatePayload};

verus! {

pub const BOOK_ROUTE_ROOT: &'static str = "/book";

pub const BOOKS_ROUTE_ROOT: &'static str = "/books";

pub const BOOK_BORROW_ROUTE: &'static str = "/borrow";

pub const USER_ROUTE: &'static str = "user";

/// Where a user logs in.
pub const SESSION_ROUTE: &'static str = "/session";

/// The route of one book: `/book/{title}`.
pub open spec fn book_route(title: Seq<char>) -> Seq<char> {
    BOOK_ROUTE_ROOT@ + seq!['/'] + title
}

/// The route that lists books matching a query: `/books/{query}`.
pub open spec fn books_route(query: Seq<char>) -> Seq<char> {
    BOOKS_ROUTE_ROOT@ + seq!['/'] + query
}

/// The route where a book is borrowed and returned: `/book/{title}/borrow`.
pub open spec fn book_borrow_route(title: Seq<char>) -> Seq<char> {
    book_route(title) + BOOK_BORROW_ROUTE@
}

pub fn book_route_of(title: &str) -> (r: String)
    ensures
        r@ == book_route(title@),
{
    proof {
        reveal_strlit("/");
    }
    let mut r = BOOK_ROUTE_ROOT.to_owned();
    r.append("/");
    r.append(title);
    r
}

pub fn books_route_of(query: &str) -> (r: String)
    ensures
        r@ == books_route(query@),
{
    proof {
        reveal_strlit("/");
    }
    let mut r = BOOKS_ROUTE_ROOT.to_owned();
    r.append("/");
    r.append(query);
    r
}

pub fn book_borrow_route_of(title: &str) -> (r: String)
    ensures
        r@ == book_borrow_route(title@),
{
    let mut r = book_route_of(title);
    r.append(BOOK_BORROW_ROUTE);
    r
}

fn url(server_addr: &str, route: &str) -> (r: String)
    ensures
        r@ == server_addr@ + route@,
{
    let mut r = server_addr.to_owned();
    r.append(route);
    r
}

/// A request to borrow a book, on behalf of a user when one is given.
pub fn do_borrow(server_addr: &str, user: Option<&User>, access_token: &str, payload: &BookBorrowByTitlePayload) -> (r: ClientRequest)
    ensures
        r.method == Method::Post,
        r.url@ == server_addr@ + book_borrow_route(payload.title@),
        headers_view(r.headers@) == match user {
            Some(u) => seq![(AUTH_HEADER@, access_token@), (CONTENT_TYPE@, JSON_MIME@), (FROM_HEADER@, u.email@)],
            None => seq![(AUTH_HEADER@, access_token@), (CONTENT_TYPE@, JSON_MIME@)],
        },
{
    let route = book_borrow_route_of(payload.title.as_str());
    let mut headers = vec![header(AUTH_HEADER, access_token), header(CONTENT_TYPE, JSON_MIME)];
    if let Some(u) = user {
        headers.push(header(FROM_HEADER, u.email.as_str()));
    }
    let r = ClientRequest { method: Method::Post, url: url(server_addr, route.as_str()), headers };
    assert(headers_view(r.headers@) =~= match user {
        Some(u) => seq![(AUTH_HEADER@, access_token@), (CONTENT_TYPE@, JSON_MIME@), (FROM_HEADER@, u.email@)],
        None => seq![(AUTH_HEADER@, access_token@), (CONTENT_TYPE@, JSON_MIME@)],
    });
    r
}

/// A request to end the borrow of a book, by the user with this email.
pub fn do_end_loan(server_addr: &str, email: &str, payload: &BookEndBorrowByTitlePayload) -> (r: ClientRequest)
    ensures
        r.method == Method::Delete,
        r.url@ == server_addr@ + book_borrow_route(payload.title@),
        headers_view(r.headers@) == seq![
            (AUTH_HEADER@, payload.access_token@),
            (FROM_HEADER@, email@),
            (CONTENT_TYPE@, JSON_MIME@),
        ],
{
    let route = book_borrow_route_of(payload.title.as_str());
    let headers = vec![
        header(AUTH_HEADER, payload.access_token.as_str()),
        header(FROM_HEADER, email),
        header(CONTENT_TYPE, JSON_MIME),
    ];
    let r = ClientRequest { method: Method::Delete, url: url(server_addr, route.as_str()), headers };
    assert(headers_view(r.headers@) =~= seq![
        (AUTH_HEADER@, payload.access_token@),
        (FROM_HEADER@, email@),
        (CONTENT_TYPE@, JSON_MIME@),
    ]);
    r
}

/// A request to create a book, with the creator's token.
pub fn do_create(server_addr: &str, payload: &BookCreatePayload) -> (r: ClientRequest)
    ensures
        r.method == Method::Post,
        r.url@ == server_addr@ + BOOK_ROUTE_ROOT@,
        headers_view(r.headers@) == seq![(AUTH_HEADER@, payload.access_token@), (CONTENT_TYPE@, JSON_MIME@)],
{
    let headers = vec![header(AUTH_HEADER, payload.access_token.as_str()), header(CONTENT_TYPE, JSON_MIME)];
    let r = ClientRequest { method: Method::Post, url: url(server_addr, BOOK_ROUTE_ROOT), headers };
    assert(headers_view(r.headers@) =~= seq![(AUTH_HEADER@, payload.access_token@), (CONTENT_TYPE@, JSON_MIME@)]);
    r
}

/// A request for one book.
pub fn get(server_addr: &str, id: &str) -> (r: ClientRequest)
    ensures
        r.method == Method::Get,
        r.url@ == server_addr@ + book_route(id@),
        r.headers@.len() == 0,
{
    let route = book_route_of(id);
    ClientRequest { method: Method::Get, url: url(server_addr, route.as_str()), headers: Vec::new() }
}

/// A request for the books, all of them or those matching a query.
pub fn list(server_addr: &str, query: Option<&str>) -> (r: ClientRequest)
    ensures
        r.method == Method::Get,
        r.url@ == server_addr@ + match query {
            Some(q) => books_route(q@),
            None => BOOKS_ROUTE_ROOT@,
        },
        r.headers@.len() == 0,
{
    let u = match query {
        Some(q) => {
            let route = books_route_of(q);
            url(server_addr, route.as_str())
        },
        None => url(server_addr, BOOKS_ROUTE_ROOT),
    };
    ClientRequest { method: Method::Get, url: u, headers: Vec::new() }
}

/// A request to create a user.
pub fn create_user(server_addr: &str) -> (r: ClientRequest)
    ensures
        r.method == Method::Post,
        r.url@ == server_addr@ + seq!['/'] + USER_ROUTE@,
        headers_view(r.headers@) == seq![(CONTENT_TYPE@, JSON_MIME@)],
{
    proof {
        reveal_strlit("/");
    }
    let mut u = server_addr.to_owned();
    u.append("/");
    u.append(USER_ROUTE);
    let headers = vec![header(CONTENT_TYPE, JSON_MIME)];
    let r = ClientRequest { method: Method::Post, url: u, headers };
    assert(headers_view(r.headers@) =~= seq![(CONTENT_TYPE@, JSON_MIME@)]);
    r
}

/// A request to log in; its body names the user.
pub fn login(server_addr: &str) -> (r: ClientRequest)
    ensures
        r.method == Method::Post,
        r.url@ == server_addr@ + SESSION_ROUTE@,
        headers_view(r.headers@) == seq![(CONTENT_TYPE@, JSON_MIME@)],
{
    let headers = vec![header(CONTENT_TYPE, JSON_MIME)];
    let r = ClientRequest { method: Method::Post, url: url(server_addr, SESSION_ROUTE), headers };
    assert(headers_view(r.headers@) =~= seq![(CONTENT_TYPE@, JSON_MIME@)]);
    r
}

} // verus!
