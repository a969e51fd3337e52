//! Gives users an access token.
use vstd::prelude::*;

verus! {

pub const SQL: &'static str = r###"
     ALTER TABLE public."user" ADD access_token varchar(512) NULL;
     "###;

pub fn migration() -> (r: String)
    ensures
        r@ == SQL@,
{
    SQL.to_owned()
}

} // verus!
