//! Ties a book's lease to a user.
use vstd::prelude::*;

verus! {

pub const SQL: &'static str = r###"
     ALTER TABLE public.book ADD CONSTRAINT book_fk FOREIGN KEY (lease_id) REFERENCES public."user"(id);
     "###;

pub fn migration() -> (r: String)
    ensures
        r@ == SQL@,
{
    SQL.to_owned()
}

} // verus!
