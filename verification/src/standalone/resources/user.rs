//! Users of the single-route server, as rows decode into them.
use vstd::prelude::*;
use crate::sql::{DbError, DbErrorView, Row, ColumnView, decode_int, decode_text, get_int, get_text};
use super::super::entities::{UserPublic, UserPublicView};

verus! {

pub open spec fn spec_from_row(cols: Seq<ColumnView>) -> Result<UserPublicView, DbErrorView> {
    match decode_int(cols, "id"@) {
        Err(e) => Err(e),
        Ok(id) => match decode_text(cols, "email"@) {
            Err(e) => Err(e),
            Ok(email) => match decode_int(cols, "access_level"@) {
                Err(e) => Err(e),
                Ok(access_level) => Ok(UserPublicView { id, email, access_level }),
            },
        },
    }
}

pub fn from_row(row: &Row) -> (r: Result<UserPublic, DbError>)
    ensures
        match r {
            Ok(u) => spec_from_row(row@) == Ok::<UserPublicView, DbErrorView>(u@),
            Err(e) => spec_from_row(row@) == Err::<UserPublicView, DbErrorView>(e@),
        },
{
    let id = match get_int(row, "id") {
        Ok(v) => v,
        Err(e) => return Err(e),
    };
    let email = match get_text(row, "email") {
        Ok(v) => v,
        Err(e) => return Err(e),
    };
    let access_level = match get_int(row, "access_level") {
        Ok(v) => v,
        Err(e) => return Err(e),
    };
    Ok(UserPublic { id, email, access_level })
}

} // verus!
