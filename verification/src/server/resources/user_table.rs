//! What the statements of the user handlers do to the user table, one spec
//! function for each statement, as their SQL reads: the table holds at most
//! one user for each email (its primary key). Over this reading, what the
//! service promises of a new user is proved: it is created exactly when its
//! level needs no admin or an admin asked for it; its token then passes the
//! token check, and it can log in and get that token back.
use vstd::prelude::*;
use crate::entities::UserView;
use crate::http::StatusCode;
use crate::sql::{ColumnView, SqlValueView, DbEventView, DbErrorView, lookup};
use crate::entities::access_mask::{self, spec_grants};
use super::{ActionView, answer, answer_with, failure};
use super::user::{
    spec_from_row, spec_check_access_token, login_next, create_user_next, create_user_start, needs_admin,
    CreateUserView, CreateUserStage,
};
use crate::server::auth::spec_auth_verdict;

verus! {

/// The user table: each email to its user.
pub type UserTable = Map<Seq<char>, UserView>;

/// A user's row, as `SELECT *` returns it.
pub open spec fn user_columns(u: UserView) -> Seq<ColumnView> {
    seq![
        ColumnView { name: "email"@, value: SqlValueView::Text(u.email) },
        ColumnView { name: "access_mask"@, value: SqlValueView::Int(u.access_mask) },
        ColumnView { name: "access_token"@, value: SqlValueView::Text(u.access_token) },
    ]
}

/// `INSERT INTO "user" (email, access_mask, access_token) VALUES ($1, $2, $3)
/// RETURNING *`: a second user with the same email breaks the primary key,
/// and the database refuses the statement with `refusal`.
pub open spec fn insert_user(
    t: UserTable,
    email: Seq<char>,
    mask: i32,
    token: Seq<char>,
    refusal: DbErrorView,
) -> (UserTable, DbEventView) {
    if t.contains_key(email) {
        (t, DbEventView::Failed(refusal))
    } else {
        let u = UserView { email, access_mask: mask, access_token: token };
        (t.insert(email, u), DbEventView::Fetched(Some(user_columns(u))))
    }
}

/// Whether the user with this email holds this token.
pub open spec fn holds(t: UserTable, email: Seq<char>, token: Seq<char>) -> bool {
    t.contains_key(email) && t[email].access_token == token
}

/// `SELECT EXISTS(SELECT 1 FROM "user" WHERE email=$1 AND access_token=$2)`.
pub open spec fn select_token(t: UserTable, email: Seq<char>, token: Seq<char>) -> DbEventView {
    DbEventView::Fetched(Some(seq![ColumnView { name: "exists"@, value: SqlValueView::Bool(holds(t, email, token)) }]))
}

/// `SELECT * FROM "user" WHERE email=$1`.
pub open spec fn select_user(t: UserTable, email: Seq<char>) -> DbEventView {
    if t.contains_key(email) {
        DbEventView::Fetched(Some(user_columns(t[email])))
    } else {
        DbEventView::Fetched(None)
    }
}

proof fn lemma_column_names()
    ensures
        "email"@ != "access_mask"@,
        "email"@ != "access_token"@,
        "access_mask"@ != "access_token"@,
{
    reveal_strlit("email");
    reveal_strlit("access_mask");
    reveal_strlit("access_token");
    assert("email"@.len() == 5);
    assert("access_mask"@.len() == 11);
    assert("access_token"@.len() == 12);
}

/// A user's row reads back as the user.
pub proof fn lemma_user_row_decodes(u: UserView)
    ensures
        spec_from_row(user_columns(u)) == Ok::<UserView, DbErrorView>(u),
{
    lemma_column_names();
    let cols = user_columns(u);
    assert(cols.drop_first()[0].name == "access_mask"@);
    assert(cols.drop_first().drop_first()[0].name == "access_token"@);
    assert(lookup(cols, "email"@) == Some(cols[0].value));
    assert(lookup(cols, "access_mask"@) == Some(cols[1].value)) by {
        assert(lookup(cols.drop_first(), "access_mask"@) == Some(cols.drop_first()[0].value));
    }
    assert(lookup(cols, "access_token"@) == Some(cols[2].value)) by {
        assert(lookup(cols.drop_first().drop_first(), "access_token"@) == Some(cols.drop_first().drop_first()[0].value));
        assert(lookup(cols.drop_first(), "access_token"@) == lookup(cols.drop_first().drop_first(), "access_token"@));
    }
}

/// The token check against the table: it passes exactly when the user with
/// the email holds the token.
pub proof fn lemma_token_check_against_table(t: UserTable, email: Seq<char>, token: Seq<char>)
    ensures
        spec_check_access_token(select_token(t, email, token)) == Ok::<bool, DbErrorView>(holds(t, email, token)),
        (spec_auth_verdict(spec_check_access_token(select_token(t, email, token))) == StatusCode::Success) == holds(
            t,
            email,
            token,
        ),
{
}

/// A new user: the creation answers `Created` with the user, whose token is
/// its email; afterwards that token passes the token check, and a login with
/// the email answers the same user. A second creation with the same email is
/// refused by the database, the table stays as it was, and the creation
/// answers that refusal.
pub proof fn lemma_created_user_passes_token_check(t: UserTable, s: CreateUserView, refusal: DbErrorView)
    requires
        s.stage == CreateUserStage::Insert,
    ensures
        ({
            let (t1, reply) = insert_user(t, s.email, s.access_mask, s.email, refusal);
            let u = UserView { email: s.email, access_mask: s.access_mask, access_token: s.email };
            !t.contains_key(s.email) ==> {
                &&& t1 == t.insert(s.email, u)
                &&& create_user_next(s, reply).1 == answer_with(StatusCode::Created, u)
                &&& spec_check_access_token(select_token(t1, u.email, u.access_token)) == Ok::<bool, DbErrorView>(true)
                &&& spec_auth_verdict(spec_check_access_token(select_token(t1, u.email, u.access_token)))
                    == StatusCode::Success
                &&& login_next(select_user(t1, u.email)) == answer_with(StatusCode::Success, u)
            }
        }),
        t.contains_key(s.email) ==> ({
            let (t1, reply) = insert_user(t, s.email, s.access_mask, s.email, refusal);
            &&& t1 == t
            &&& create_user_next(s, reply).1 == failure::<UserView>(refusal)
        }),
{
    let u = UserView { email: s.email, access_mask: s.access_mask, access_token: s.email };
    lemma_user_row_decodes(u);
    let t1 = t.insert(s.email, u);
    assert(t1[s.email] == u);
}

/// `SELECT access_mask FROM "user" WHERE access_token=$1`: the row of a user
/// who holds the token, when there is one. The statement fixes no order, so
/// when several users hold the token, which of them answers is left open.
pub open spec fn select_mask(t: UserTable, token: Seq<char>) -> DbEventView {
    if exists|e: Seq<char>| #[trigger] holds(t, e, token) {
        let e = choose|e: Seq<char>| #[trigger] holds(t, e, token);
        DbEventView::Fetched(Some(seq![ColumnView { name: "access_mask"@, value: SqlValueView::Int(t[e].access_mask) }]))
    } else {
        DbEventView::Fetched(None)
    }
}

/// Whether the token is held by some user, and only by admins.
pub open spec fn held_by_admins_only(t: UserTable, token: Seq<char>) -> bool {
    &&& exists|e: Seq<char>| #[trigger] holds(t, e, token)
    &&& forall|e: Seq<char>| #[trigger] holds(t, e, token) ==> spec_grants(t[e].access_mask, access_mask::ADMIN)
}

/// Whether no admin holds the token.
pub open spec fn held_by_no_admin(t: UserTable, token: Seq<char>) -> bool {
    forall|e: Seq<char>| #[trigger] holds(t, e, token) ==> !spec_grants(t[e].access_mask, access_mask::ADMIN)
}

/// A whole creation of a user against the table: its answer, and the table after it.
pub open spec fn create_user_run(
    t: UserTable,
    email: Seq<char>,
    mask: i32,
    requester: Option<Seq<char>>,
    refusal: DbErrorView,
) -> (ActionView<UserView>, UserTable) {
    let (s0, a0) = create_user_start(email, mask, requester);
    if s0.stage == CreateUserStage::Insert {
        let (t1, reply) = insert_user(t, email, mask, email, refusal);
        (create_user_next(s0, reply).1, t1)
    } else if s0.stage == CreateUserStage::CheckRequester {
        let (s1, a1) = create_user_next(s0, select_mask(t, requester->0));
        if s1.stage == CreateUserStage::Insert {
            let (t2, reply) = insert_user(t, email, mask, email, refusal);
            (create_user_next(s1, reply).1, t2)
        } else {
            (a1, t)
        }
    } else {
        (a0, t)
    }
}

/// Creating a user, start to end, against the table. A user whose level needs
/// no admin, or one asked for with a token that only admins hold, is created
/// when its email is new: the answer is `Created` with the user, its token is
/// its email, the token then passes the token check, and a login hands the
/// user back; with an email already taken the database's refusal is the
/// answer and the table stays as it was. A user whose level needs an admin,
/// asked for without a token or with one that no admin holds, is `Forbidden`,
/// and the table stays as it was.
pub proof fn lemma_user_creation_against_table(
    t: UserTable,
    email: Seq<char>,
    mask: i32,
    requester: Option<Seq<char>>,
    refusal: DbErrorView,
)
    ensures
        ({
            let run = create_user_run(t, email, mask, requester, refusal);
            let u = UserView { email, access_mask: mask, access_token: email };
            let allowed = !needs_admin(mask) || (requester matches Some(tok) && held_by_admins_only(t, tok));
            &&& allowed && !t.contains_key(email) ==> {
                &&& run == (answer_with(StatusCode::Created, u), t.insert(email, u))
                &&& spec_check_access_token(select_token(run.1, email, email)) == Ok::<bool, DbErrorView>(true)
                &&& spec_auth_verdict(spec_check_access_token(select_token(run.1, email, email)))
                    == StatusCode::Success
                &&& login_next(select_user(run.1, email)) == answer_with(StatusCode::Success, u)
            }
            &&& allowed && t.contains_key(email) ==> run == (failure::<UserView>(refusal), t)
            &&& needs_admin(mask) && (requester is None || held_by_no_admin(t, requester->0)) ==> run == (
                answer::<UserView>(StatusCode::Forbidden),
                t,
            )
        }),
{
    let u = UserView { email, access_mask: mask, access_token: email };
    lemma_user_row_decodes(u);
    let t1 = t.insert(email, u);
    assert(t1[email] == u);
    assert(holds(t1, email, email));
    if needs_admin(mask) {
        if let Some(tok) = requester {
            if exists|e: Seq<char>| #[trigger] holds(t, e, tok) {
                let e = choose|e: Seq<char>| #[trigger] holds(t, e, tok);
                assert(holds(t, e, tok));
                let cols = seq![ColumnView { name: "access_mask"@, value: SqlValueView::Int(t[e].access_mask) }];
                assert(lookup(cols, "access_mask"@) == Some(SqlValueView::Int(t[e].access_mask)));
            }
        }
    }
}

} // verus!
