//! The routes the server answers, and the handler behind each.
use vstd::prelude::*;
use crate::http::Method;
use crate::entities::routes::{
    BOOK_ROUTE_ROOT, BOOKS_ROUTE_ROOT, USER_ROUTE, SESSION_ROUTE, book_route, books_route, book_borrow_route,
    book_route_of, books_route_of, book_borrow_route_of,
};

verus! {

#[derive(PartialEq, Eq, Structural, Clone, Copy, Debug)]
pub enum Endpoint {
    GetBook,
    CreateBook,
    ListBooks,
    BorrowBook,
    EndBorrow,
    Login,
    CreateUser,
}

/// Whether the requests to an endpoint pass the token check first: borrowing
/// a book and ending a borrow do.
pub open spec fn spec_guarded(e: Endpoint) -> bool {
    e == Endpoint::BorrowBook || e == Endpoint::EndBorrow
}

impl Endpoint {
    pub fn guarded(&self) -> (r: bool)
        ensures
            r == spec_guarded(*self),
    {
        match self {
            Endpoint::BorrowBook | Endpoint::EndBorrow => true,
            _ => false,
        }
    }
}

pub struct Route {
    pub path: String,
    pub method: Method,
    pub endpoint: Endpoint,
    /// The requests pass the token check before they reach the endpoint.
    pub guarded: bool,
}

/// The placeholder of a book's title in a route.
pub const TITLE_PARAM: &'static str = ":title";

/// The placeholder of a listing's query in a route.
pub const QUERY_PARAM: &'static str = ":query";

/// The address the server listens on when none is given.
pub const DEFAULT_LISTEN: &'static str = "127.0.0.1:8080";

/// Every route: its path, its method, its handler, and whether its requests
/// pass the token check first.
pub open spec fn route_table() -> Seq<(Seq<char>, Method, Endpoint, bool)> {
    seq![
        (book_route(TITLE_PARAM@), Method::Get, Endpoint::GetBook, false),
        (BOOK_ROUTE_ROOT@, Method::Post, Endpoint::CreateBook, false),
        (books_route(QUERY_PARAM@), Method::Get, Endpoint::ListBooks, false),
        (BOOKS_ROUTE_ROOT@, Method::Get, Endpoint::ListBooks, false),
        (book_borrow_route(TITLE_PARAM@), Method::Post, Endpoint::BorrowBook, true),
        (book_borrow_route(TITLE_PARAM@), Method::Delete, Endpoint::EndBorrow, true),
        (SESSION_ROUTE@, Method::Post, Endpoint::Login, false),
        (USER_ROUTE@, Method::Post, Endpoint::CreateUser, false),
    ]
}

pub open spec fn routes_view(r: Seq<Route>) -> Seq<(Seq<char>, Method, Endpoint, bool)> {
    r.map_values(|x: Route| (x.path@, x.method, x.endpoint, x.guarded))
}

pub fn routes() -> (r: Vec<Route>)
    ensures
        routes_view(r@) == route_table(),
{
    let r = vec![
        Route { path: book_route_of(TITLE_PARAM), method: Method::Get, endpoint: Endpoint::GetBook, guarded: false },
        Route { path: BOOK_ROUTE_ROOT.to_owned(), method: Method::Post, endpoint: Endpoint::CreateBook, guarded: false },
        Route { path: books_route_of(QUERY_PARAM), method: Method::Get, endpoint: Endpoint::ListBooks, guarded: false },
        Route { path: BOOKS_ROUTE_ROOT.to_owned(), method: Method::Get, endpoint: Endpoint::ListBooks, guarded: false },
        Route { path: book_borrow_route_of(TITLE_PARAM), method: Method::Post, endpoint: Endpoint::BorrowBook, guarded: true },
        Route { path: book_borrow_route_of(TITLE_PARAM), method: Method::Delete, endpoint: Endpoint::EndBorrow, guarded: true },
        Route { path: SESSION_ROUTE.to_owned(), method: Method::Post, endpoint: Endpoint::Login, guarded: false },
        Route { path: USER_ROUTE.to_owned(), method: Method::Post, endpoint: Endpoint::CreateUser, guarded: false },
    ];
    assert(routes_view(r@) =~= route_table());
    r
}

/// The address to listen on: the one given, or the default.
pub fn listen_address(given: Option<&str>) -> (r: String)
    ensures
        r@ == match given {
            Some(a) => a@,
            None => DEFAULT_LISTEN@,
        },
{
    match given {
        Some(a) => a.to_owned(),
        None => DEFAULT_LISTEN.to_owned(),
    }
}

/// No two routes share both their path and their method, so every request
/// reaches one handler at most; borrowing and returning a book share a path
/// and differ by their method. A route passes the token check first exactly
/// when its endpoint is guarded.
pub proof fn lemma_routes_unambiguous()
    ensures
        forall|i: int, j: int|
            0 <= i < j < route_table().len() ==> (#[trigger] route_table()[i]).0 != (#[trigger] route_table()[j]).0
                || route_table()[i].1 != route_table()[j].1,
        route_table()[4].0 == route_table()[5].0,
        forall|i: int| 0 <= i < route_table().len() ==> (#[trigger] route_table()[i]).3 == spec_guarded(route_table()[i].2),
{
    reveal_strlit("/book");
    reveal_strlit("/books");
    reveal_strlit(":title");
    reveal_strlit(":query");
    reveal_strlit("/borrow");
    reveal_strlit("user");
    reveal_strlit("/session");
    let t = route_table();
    assert(t[0].0.len() == 12);
    assert(t[1].0.len() == 5);
    assert(t[2].0.len() == 13);
    assert(t[3].0.len() == 6);
    assert(t[4].0.len() == 19);
    assert(t[5].0.len() == 19);
    assert(t[6].0.len() == 8);
    assert(t[7].0.len() == 4);
    assert forall|i: int, j: int| 0 <= i < j < t.len() implies (#[trigger] t[i]).0 != (#[trigger] t[j]).0 || t[i].1
        != t[j].1 by {
        if t[i].0 == t[j].0 {
            assert(t[i].0.len() == t[j].0.len());
        }
    }
}

} // verus!
