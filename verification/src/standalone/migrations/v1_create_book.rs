//! Creates the book table.
use vstd::prelude::*;

verus! {

pub const SQL: &'static str = r###"
     CREATE TABLE public.book (
         id serial NOT NULL,
         title text NOT NULL,
         lease_id int4 NULL,
         lease_until bigint NULL,
         CONSTRAINT book_pk PRIMARY KEY (id)
     );
     "###;

pub fn migration() -> (r: String)
    ensures
        r@ == SQL@,
{
    SQL.to_owned()
}

} // verus!
