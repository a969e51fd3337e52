//! Creates the book table.
use vstd::prelude::*;

verus! {

pub const SQL: &'static str = r###"
     CREATE TABLE public.book (
         title text NOT NULL,
         borrow_id varchar(256) NULL,
         borrow_until bigint NULL,
         CONSTRAINT book_pk PRIMARY KEY (title)
     );
     "###;

pub fn migration() -> (r: String)
    ensures
        r@ == SQL@,
{
    SQL.to_owned()
}

} // verus!
