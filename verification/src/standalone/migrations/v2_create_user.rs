//! Creates the user table.
use vstd::prelude::*;

verus! {

pub const SQL: &'static str = r###"
     CREATE TABLE public."user" (
         email varchar(256) NOT NULL,
         access_level int4 NULL DEFAULT 0,
         CONSTRAINT user_pk PRIMARY KEY (email)
     );
     "###;

pub fn migration() -> (r: String)
    ensures
        r@ == SQL@,
{
    SQL.to_owned()
}

} // verus!
