//! The single-route server's data: a book with an id and a title.
use vstd::prelude::*;

verus! {

#[derive(Debug)]
pub struct Book {
    pub id: i32,
    pub title: String,
}

pub struct BookView {
    pub id: i32,
    pub title: Seq<char>,
}

impl View for Book {
    type V = BookView;

    open spec fn view(&self) -> BookView {
        BookView { id: self.id, title: self.title@ }
    }
}

/// A user as the public sees it.
#[derive(Debug)]
pub struct UserPublic {
    pub id: i32,
    pub email: String,
    pub access_level: i32,
}

pub struct UserPublicView {
    pub id: i32,
    pub email: Seq<char>,
    pub access_level: i32,
}

impl View for UserPublic {
    type V = UserPublicView;

    open spec fn view(&self) -> UserPublicView {
        UserPublicView { id: self.id, email: self.email@, access_level: self.access_level }
    }
}

#[derive(Debug)]
pub struct GetBookByTitlePayload {
    pub title: String,
}

} // verus!
