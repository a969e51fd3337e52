//! Ties a book's borrower to a user.
use vstd::prelude::*;

verus! {

pub const SQL: &'static str = r###"
     ALTER TABLE public.book ADD CONSTRAINT book_fk FOREIGN KEY (borrow_id) REFERENCES public."user"(email);
     "###;

pub fn migration() -> (r: String)
    ensures
        r@ == SQL@,
{
    SQL.to_owned()
}

} // verus!
