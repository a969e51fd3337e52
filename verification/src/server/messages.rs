//! The server's actor groups.
use vstd::prelude::*;
use crate::logging::{
    Loggable, debug_quoted, debug_str, debug_int, debug_i64, debug_opt_text, debug_opt_str,
    struct_open, field_line, struct_close, push_struct_open, push_field, push_struct_close,
};
use crate::entities::{
    opt_view, BookGetByTitlePayload, BookBorrowByTitlePayload, BookEndBorrowByTitlePayload,
    BookCreatePayload, BookPublicListPayload, UserCreatePayload, UserLoginPayload,
};

verus! {

/// The groups of actors; each is known by its variant's name.
#[derive(PartialEq, Eq, Structural, Clone, Copy, Debug)]
pub enum ActorGroups {
    Input,
    Book,
    User,
}

impl ActorGroups {
    pub open spec fn name(self) -> Seq<char> {
        match self {
            ActorGroups::Input => "Input"@,
            ActorGroups::Book => "Book"@,
            ActorGroups::User => "User"@,
        }
    }

    pub fn as_ref(&self) -> (s: &'static str)
        ensures
            s@ == self.name(),
    {
        match self {
            ActorGroups::Input => "Input",
            ActorGroups::Book => "Book",
            ActorGroups::User => "User",
        }
    }

    pub fn to_string(&self) -> (s: String)
        ensures
            s@ == self.name(),
    {
        self.as_ref().to_owned()
    }
}

/// The requests the book actor handles, each with its payload.
pub enum BookRequest {
    GetByTitle(BookGetByTitlePayload),
    LeaseByTitle(BookBorrowByTitlePayload),
    EndLoanByTitle(BookEndBorrowByTitlePayload),
    Creation(BookCreatePayload),
    PublicList(BookPublicListPayload),
}

/// The requests the user actor handles.
pub enum UserRequest {
    Creation(UserCreatePayload),
    Login(UserLoginPayload),
}

/// A request is logged as its payload.
impl Loggable for BookRequest {
    open spec fn log_text(&self) -> Seq<char> {
        match self {
            BookRequest::GetByTitle(p) => p.log_text(),
            BookRequest::LeaseByTitle(p) => p.log_text(),
            BookRequest::EndLoanByTitle(p) => p.log_text(),
            BookRequest::Creation(p) => p.log_text(),
            BookRequest::PublicList(p) => p.log_text(),
        }
    }

    fn to_log(&self) -> (r: String) {
        match self {
            BookRequest::GetByTitle(p) => p.to_log(),
            BookRequest::LeaseByTitle(p) => p.to_log(),
            BookRequest::EndLoanByTitle(p) => p.to_log(),
            BookRequest::Creation(p) => p.to_log(),
            BookRequest::PublicList(p) => p.to_log(),
        }
    }
}

impl Loggable for UserRequest {
    open spec fn log_text(&self) -> Seq<char> {
        match self {
            UserRequest::Creation(p) => p.log_text(),
            UserRequest::Login(p) => p.log_text(),
        }
    }

    fn to_log(&self) -> (r: String) {
        match self {
            UserRequest::Creation(p) => p.to_log(),
            UserRequest::Login(p) => p.to_log(),
        }
    }
}

/// Payloads are logged in the pretty `Debug` layout: the type's name, then a
/// line for each field, then a closing brace.
impl Loggable for BookGetByTitlePayload {
    open spec fn log_text(&self) -> Seq<char> {
        struct_open("BookGetByTitlePayload"@)
            + field_line("title"@, debug_quoted(self.title@))
            + struct_close()
    }

    fn to_log(&self) -> (r: String) {
        let mut out = String::new();
        push_struct_open(&mut out, "BookGetByTitlePayload");
        let v = debug_str(self.title.as_str());
        push_field(&mut out, "title", v.as_str());
        push_struct_close(&mut out);
        assert(out@ =~= self.log_text());
        out
    }
}

impl Loggable for BookBorrowByTitlePayload {
    open spec fn log_text(&self) -> Seq<char> {
        struct_open("BookBorrowByTitlePayload"@)
            + field_line("title"@, debug_quoted(self.title@))
            + field_line("borrow_length"@, debug_int(self.borrow_length as int))
            + field_line("borrow_id"@, debug_quoted(self.borrow_id@))
            + struct_close()
    }

    fn to_log(&self) -> (r: String) {
        let mut out = String::new();
        push_struct_open(&mut out, "BookBorrowByTitlePayload");
        let v = debug_str(self.title.as_str());
        push_field(&mut out, "title", v.as_str());
        let v = debug_i64(self.borrow_length);
        push_field(&mut out, "borrow_length", v.as_str());
        let v = debug_str(self.borrow_id.as_str());
        push_field(&mut out, "borrow_id", v.as_str());
        push_struct_close(&mut out);
        assert(out@ =~= self.log_text());
        out
    }
}

impl Loggable for BookEndBorrowByTitlePayload {
    open spec fn log_text(&self) -> Seq<char> {
        struct_open("BookEndBorrowByTitlePayload"@)
            + field_line("title"@, debug_quoted(self.title@))
            + field_line("access_token"@, debug_quoted(self.access_token@))
            + struct_close()
    }

    fn to_log(&self) -> (r: String) {
        let mut out = String::new();
        push_struct_open(&mut out, "BookEndBorrowByTitlePayload");
        let v = debug_str(self.title.as_str());
        push_field(&mut out, "title", v.as_str());
        let v = debug_str(self.access_token.as_str());
        push_field(&mut out, "access_token", v.as_str());
        push_struct_close(&mut out);
        assert(out@ =~= self.log_text());
        out
    }
}

impl Loggable for BookCreatePayload {
    open spec fn log_text(&self) -> Seq<char> {
        struct_open("BookCreatePayload"@)
            + field_line("title"@, debug_quoted(self.title@))
            + field_line("access_token"@, debug_quoted(self.access_token@))
            + struct_close()
    }

    fn to_log(&self) -> (r: String) {
        let mut out = String::new();
        push_struct_open(&mut out, "BookCreatePayload");
        let v = debug_str(self.title.as_str());
        push_field(&mut out, "title", v.as_str());
        let v = debug_str(self.access_token.as_str());
        push_field(&mut out, "access_token", v.as_str());
        push_struct_close(&mut out);
        assert(out@ =~= self.log_text());
        out
    }
}

impl Loggable for BookPublicListPayload {
    open spec fn log_text(&self) -> Seq<char> {
        struct_open("BookPublicListPayload"@)
            + field_line("query"@, debug_opt_text(opt_view(self.query)))
            + struct_close()
    }

    fn to_log(&self) -> (r: String) {
        let mut out = String::new();
        push_struct_open(&mut out, "BookPublicListPayload");
        let v = debug_opt_str(&self.query);
        push_field(&mut out, "query", v.as_str());
        push_struct_close(&mut out);
        assert(out@ =~= self.log_text());
        out
    }
}

impl Loggable for UserCreatePayload {
    open spec fn log_text(&self) -> Seq<char> {
        struct_open("UserCreatePayload"@)
            + field_line("email"@, debug_quoted(self.email@))
            + field_line("access_mask"@, debug_int(self.access_mask as int))
            + field_line("requester_access_token"@, debug_opt_text(opt_view(self.requester_access_token)))
            + struct_close()
    }

    fn to_log(&self) -> (r: String) {
        let mut out = String::new();
        push_struct_open(&mut out, "UserCreatePayload");
        let v = debug_str(self.email.as_str());
        push_field(&mut out, "email", v.as_str());
        let v = debug_i64(self.access_mask as i64);
        push_field(&mut out, "access_mask", v.as_str());
        let v = debug_opt_str(&self.requester_access_token);
        push_field(&mut out, "requester_access_token", v.as_str());
        push_struct_close(&mut out);
        assert(out@ =~= self.log_text());
        out
    }
}

impl Loggable for UserLoginPayload {
    open spec fn log_text(&self) -> Seq<char> {
        struct_open("UserLoginPayload"@) + field_line("email"@, debug_quoted(self.email@)) + struct_close()
    }

    fn to_log(&self) -> (r: String) {
        let mut out = String::new();
        push_struct_open(&mut out, "UserLoginPayload");
        let v = debug_str(self.email.as_str());
        push_field(&mut out, "email", v.as_str());
        push_struct_close(&mut out);
        assert(out@ =~= self.log_text());
        out
    }
}

} // verus!
