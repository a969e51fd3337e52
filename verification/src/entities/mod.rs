//! The data of the service: books, users, and the payloads of the requests
//! that concern them.
pub mod access_mask;
pub mod routes;

use vstd::prelude::*;

verus! {

pub open spec fn opt_view(o: Option<String>) -> Option<Seq<char>> {
    match o {
        Some(s) => Some(s@),
        None => None,
    }
}

/// A book, with its current borrower (an email) and the moment its borrow ends.
#[derive(Debug)]
pub struct Book {
    pub title: String,
    pub borrow_id: Option<String>,
    pub borrow_until: Option<i64>,
}

pub struct BookView {
    pub title: Seq<char>,
    pub borrow_id: Option<Seq<char>>,
    pub borrow_until: Option<i64>,
}

impl View for Book {
    type V = BookView;

    open spec fn view(&self) -> BookView {
        BookView { title: self.title@, borrow_id: opt_view(self.borrow_id), borrow_until: self.borrow_until }
    }
}

/// A book as the general public sees it: without its borrower.
#[derive(Debug)]
pub struct BookPublic {
    pub title: String,
    pub borrow_until: Option<i64>,
}

pub struct BookPublicView {
    pub title: Seq<char>,
    pub borrow_until: Option<i64>,
}

impl View for BookPublic {
    type V = BookPublicView;

    open spec fn view(&self) -> BookPublicView {
        BookPublicView { title: self.title@, borrow_until: self.borrow_until }
    }
}

#[derive(Debug)]
pub struct BookGetByTitlePayload {
    pub title: String,
}

/// The body of a borrow request: for how long, and for whom.
#[derive(Debug)]
pub struct BookBorrowByTitleRequestBody {
    pub borrow_length: i64,
    pub borrow_id: String,
}

#[derive(Debug)]
pub struct BookEndBorrowByTitlePayload {
    pub title: String,
    pub access_token: String,
}

#[derive(Debug)]
pub struct BookCreatePayloadRequestBody {
    pub title: String,
}

#[derive(Debug)]
pub struct BookCreatePayload {
    pub title: String,
    pub access_token: String,
}

#[derive(Debug)]
pub struct BookBorrowByTitlePayload {
    pub title: String,
    pub borrow_length: i64,
    pub borrow_id: String,
}

/// A listing of books, filtered by a part of the title when a query is given.
#[derive(Debug)]
pub struct BookPublicListPayload {
    pub query: Option<String>,
}

/// The body of a successful answer that carries a book.
#[derive(Debug)]
pub struct BookOkResponse {
    pub ok: Book,
}

/// A user: an email, an access mask and the token that authenticates it.
#[derive(Debug)]
pub struct User {
    pub email: String,
    pub access_mask: i32,
    pub access_token: String,
}

pub struct UserView {
    pub email: Seq<char>,
    pub access_mask: i32,
    pub access_token: Seq<char>,
}

impl View for User {
    type V = UserView;

    open spec fn view(&self) -> UserView {
        UserView { email: self.email@, access_mask: self.access_mask, access_token: self.access_token@ }
    }
}

/// A request to create a user; creating one above the user level takes the
/// token of an admin.
#[derive(Debug)]
pub struct UserCreatePayload {
    pub email: String,
    pub access_mask: i32,
    pub requester_access_token: Option<String>,
}

#[derive(Debug)]
pub struct UserLoginPayload {
    pub email: String,
}

/// The body of a successful answer that carries a user.
#[derive(Debug)]
pub struct UserOkResponse {
    pub ok: User,
}

} // verus!
