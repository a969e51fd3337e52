//! Users: their creation, their login, and the checks of their tokens and
//! access levels.
use vstd::prelude::*;
use crate::entities::access_mask::{self, spec_grants, grants};
use crate::entities::{User, UserView, UserCreatePayload, UserLoginPayload, opt_view};
use crate::http::StatusCode;
use crate::sql::{Statement, StatementView, SqlValue, SqlValueView, Fetch, DbError, DbErrorView, DbEvent, DbEventView, Row, ColumnView, decode_opt_int, decode_bool_at, decode_text, decode_int, get_opt_int, get_bool_at, get_text, get_int};
use super::{Action, ActionView, ResponseData, answer, answer_with, failure, fits, text, statement};

verus! {

pub const ACCESS_MASK_SQL: &'static str = "SELECT access_mask FROM \"user\" WHERE access_token=$1";

pub const ACCESS_TOKEN_SQL: &'static str = "SELECT EXISTS(SELECT 1 FROM \"user\" WHERE email=$1 AND access_token=$2)";

pub const LOGIN_SQL: &'static str = "SELECT * FROM \"user\" WHERE email=$1";

pub const CREATE_USER_SQL: &'static str = "INSERT INTO \"user\" (email, access_mask, access_token) VALUES ($1, $2, $3) RETURNING *";

/// The statement that finds the access mask of the user holding a token.
pub open spec fn access_mask_statement_view(token: Seq<char>) -> StatementView {
    StatementView { sql: ACCESS_MASK_SQL@, params: seq![SqlValueView::Text(token)], fetch: Fetch::Optional }
}

pub fn access_mask_statement(token: &String) -> (s: Statement)
    ensures
        s@ == access_mask_statement_view(token@),
{
    let s = statement(ACCESS_MASK_SQL, vec![text(token)], Fetch::Optional);
    assert(s@.params =~= seq![SqlValueView::Text(token@)]);
    s
}

/// Whether the user holding a token has a required level, given the row of
/// that user if there is one: no user, or a user without a mask, has none.
pub open spec fn spec_check_access_mask(row: Option<Seq<ColumnView>>, required: i32) -> Result<bool, DbErrorView> {
    match row {
        None => Ok(false),
        Some(cols) => match decode_opt_int(cols, "access_mask"@) {
            Ok(Some(mask)) => Ok(spec_grants(mask, required)),
            Ok(None) => Ok(false),
            Err(e) => Err(e),
        },
    }
}

pub fn check_access_mask(row: &Option<Row>, required: i32) -> (r: Result<bool, DbError>)
    ensures
        match r {
            Ok(b) => spec_check_access_mask(opt_row_view(row), required) == Ok::<bool, DbErrorView>(b),
            Err(e) => spec_check_access_mask(opt_row_view(row), required) == Err::<bool, DbErrorView>(e@),
        },
{
    match row {
        None => Ok(false),
        Some(r) => match get_opt_int(r, "access_mask") {
            Ok(Some(mask)) => Ok(grants(mask, required)),
            Ok(None) => Ok(false),
            Err(e) => Err(e),
        },
    }
}

pub open spec fn opt_row_view(row: &Option<Row>) -> Option<Seq<ColumnView>> {
    match row {
        Some(r) => Some(r@),
        None => None,
    }
}

/// The statement that tells whether a user with this email holds this token.
pub open spec fn check_access_token_statement_view(email: Seq<char>, token: Seq<char>) -> StatementView {
    StatementView {
        sql: ACCESS_TOKEN_SQL@,
        params: seq![SqlValueView::Text(email), SqlValueView::Text(token)],
        fetch: Fetch::One,
    }
}

pub fn check_access_token_statement(email: &String, token: &String) -> (s: Statement)
    ensures
        s@ == check_access_token_statement_view(email@, token@),
{
    let s = statement(ACCESS_TOKEN_SQL, vec![text(email), text(token)], Fetch::One);
    assert(s@.params =~= seq![SqlValueView::Text(email@), SqlValueView::Text(token@)]);
    s
}

/// The answer of the token check, from the database's reply to its statement.
pub open spec fn spec_check_access_token(reply: DbEventView) -> Result<bool, DbErrorView> {
    match reply {
        DbEventView::Fetched(Some(cols)) => decode_bool_at(cols, 0),
        DbEventView::Failed(e) => Err(e),
        _ => Err(DbErrorView::RowNotFound),
    }
}

pub fn check_access_token(reply: DbEvent) -> (r: Result<bool, DbError>)
    requires
        fits(Fetch::One, reply@),
    ensures
        match r {
            Ok(b) => spec_check_access_token(reply@) == Ok::<bool, DbErrorView>(b),
            Err(e) => spec_check_access_token(reply@) == Err::<bool, DbErrorView>(e@),
        },
{
    match reply {
        DbEvent::Fetched(Some(row)) => get_bool_at(&row, 0),
        DbEvent::Failed(e) => Err(e),
        _ => Err(DbError::RowNotFound),
    }
}

/// A user decoded from a row of the user table.
pub open spec fn spec_from_row(cols: Seq<ColumnView>) -> Result<UserView, DbErrorView> {
    match decode_text(cols, "email"@) {
        Err(e) => Err(e),
        Ok(email) => match decode_int(cols, "access_mask"@) {
            Err(e) => Err(e),
            Ok(mask) => match decode_text(cols, "access_token"@) {
                Err(e) => Err(e),
                Ok(token) => Ok(UserView { email, access_mask: mask, access_token: token }),
            },
        },
    }
}

pub fn from_row(row: &Row) -> (r: Result<User, DbError>)
    ensures
        match r {
            Ok(u) => spec_from_row(row@) == Ok::<UserView, DbErrorView>(u@),
            Err(e) => spec_from_row(row@) == Err::<UserView, DbErrorView>(e@),
        },
{
    let email = match get_text(row, "email") {
        Ok(v) => v,
        Err(e) => return Err(e),
    };
    let access_mask = match get_int(row, "access_mask") {
        Ok(v) => v,
        Err(e) => return Err(e),
    };
    let access_token = match get_text(row, "access_token") {
        Ok(v) => v,
        Err(e) => return Err(e),
    };
    Ok(User { email, access_mask, access_token })
}

/// The statement that inserts a user; a new user's token is its email.
pub open spec fn create_user_statement_view(email: Seq<char>, mask: i32, token: Seq<char>) -> StatementView {
    StatementView {
        sql: CREATE_USER_SQL@,
        params: seq![SqlValueView::Text(email), SqlValueView::Int(mask), SqlValueView::Text(token)],
        fetch: Fetch::One,
    }
}

pub fn create_user_statement(email: &String, mask: i32, token: &String) -> (s: Statement)
    ensures
        s@ == create_user_statement_view(email@, mask, token@),
{
    let s = statement(CREATE_USER_SQL, vec![text(email), SqlValue::Int(mask), text(token)], Fetch::One);
    assert(s@.params =~= seq![SqlValueView::Text(email@), SqlValueView::Int(mask), SqlValueView::Text(token@)]);
    s
}

/// The statement that creates the admin whose credentials a test run supplies.
pub fn create_super_user(email: &String, token: &String) -> (s: Statement)
    ensures
        s@ == create_user_statement_view(email@, access_mask::ADMIN, token@),
{
    create_user_statement(email, access_mask::ADMIN, token)
}

#[derive(PartialEq, Eq, Structural, Clone, Copy, Debug)]
pub enum CreateUserStage {
    /// Waiting for the access mask of the requester.
    CheckRequester,
    /// Waiting for the inserted user.
    Insert,
    Finished,
}

/// The creation of a user. Creating a user above the user level (one whose
/// mask grants the librarian level) takes the token of an admin.
pub struct CreateUser {
    pub email: String,
    pub access_mask: i32,
    pub stage: CreateUserStage,
}

pub struct CreateUserView {
    pub email: Seq<char>,
    pub access_mask: i32,
    pub stage: CreateUserStage,
}

impl View for CreateUser {
    type V = CreateUserView;

    open spec fn view(&self) -> CreateUserView {
        CreateUserView { email: self.email@, access_mask: self.access_mask, stage: self.stage }
    }
}

impl CreateUserView {
    pub open spec fn with_stage(self, stage: CreateUserStage) -> CreateUserView {
        CreateUserView { stage, ..self }
    }

    pub open spec fn awaits(self, e: DbEventView) -> bool {
        match self.stage {
            CreateUserStage::CheckRequester => fits(Fetch::Optional, e),
            CreateUserStage::Insert => fits(Fetch::One, e),
            CreateUserStage::Finished => false,
        }
    }

    pub open spec fn insert(self) -> StatementView {
        create_user_statement_view(self.email, self.access_mask, self.email)
    }
}

/// Whether creating a user with this mask takes an admin's token.
pub open spec fn needs_admin(mask: i32) -> bool {
    spec_grants(mask, access_mask::LIBRARIAN)
}

/// How the creation of a user starts.
pub open spec fn create_user_start(p_email: Seq<char>, p_mask: i32, p_requester: Option<Seq<char>>) -> (CreateUserView, ActionView<UserView>) {
    let s = CreateUserView { email: p_email, access_mask: p_mask, stage: CreateUserStage::Finished };
    if needs_admin(p_mask) {
        match p_requester {
            None => (s, answer(StatusCode::Forbidden)),
            Some(token) => (s.with_stage(CreateUserStage::CheckRequester), ActionView::Run(access_mask_statement_view(token))),
        }
    } else {
        (s.with_stage(CreateUserStage::Insert), ActionView::Run(s.insert()))
    }
}

/// One step of the creation of a user.
pub open spec fn create_user_next(s: CreateUserView, e: DbEventView) -> (CreateUserView, ActionView<UserView>) {
    let done = s.with_stage(CreateUserStage::Finished);
    match e {
        DbEventView::Failed(err) => (done, failure(err)),
        DbEventView::Fetched(row) => match s.stage {
            CreateUserStage::CheckRequester => match spec_check_access_mask(row, access_mask::ADMIN) {
                Ok(true) => (s.with_stage(CreateUserStage::Insert), ActionView::Run(s.insert())),
                Ok(false) => (done, answer(StatusCode::Forbidden)),
                Err(err) => (done, failure(err)),
            },
            _ => match row {
                Some(cols) => match spec_from_row(cols) {
                    Ok(u) => (done, answer_with(StatusCode::Created, u)),
                    Err(err) => (done, failure(err)),
                },
                None => (done, failure(DbErrorView::RowNotFound)),
            },
        },
        _ => (done, failure(DbErrorView::RowNotFound)),
    }
}

impl CreateUser {
    pub fn start(payload: &UserCreatePayload) -> (r: (CreateUser, Action<User>))
        ensures
            (r.0@, r.1@) == create_user_start(payload.email@, payload.access_mask, opt_view(payload.requester_access_token)),
    {
        let mut s = CreateUser { email: payload.email.clone(), access_mask: payload.access_mask, stage: CreateUserStage::Finished };
        if grants(payload.access_mask, access_mask::LIBRARIAN) {
            match &payload.requester_access_token {
                None => (s, Action::Reply(Ok(ResponseData(StatusCode::Forbidden, None)))),
                Some(token) => {
                    s.stage = CreateUserStage::CheckRequester;
                    let st = access_mask_statement(token);
                    (s, Action::Run(st))
                },
            }
        } else {
            s.stage = CreateUserStage::Insert;
            let st = create_user_statement(&s.email, s.access_mask, &s.email);
            (s, Action::Run(st))
        }
    }
}

/// One step of the creation of a user: the next state, and what to do.
pub fn create_user(state: CreateUser, event: DbEvent) -> (r: (CreateUser, Action<User>))
    requires
        state@.awaits(event@),
    ensures
        (r.0@, r.1@) == create_user_next(state@, event@),
{
    let mut s = state;
    let stage = s.stage;
    s.stage = CreateUserStage::Finished;
    match event {
        DbEvent::Failed(err) => (s, Action::Reply(Err(err))),
        DbEvent::Fetched(row) => {
            if stage == CreateUserStage::CheckRequester {
                match check_access_mask(&row, access_mask::ADMIN) {
                    Ok(true) => {
                        s.stage = CreateUserStage::Insert;
                        let st = create_user_statement(&s.email, s.access_mask, &s.email);
                        (s, Action::Run(st))
                    },
                    Ok(false) => (s, Action::Reply(Ok(ResponseData(StatusCode::Forbidden, None)))),
                    Err(err) => (s, Action::Reply(Err(err))),
                }
            } else {
                match row {
                    Some(r) => match from_row(&r) {
                        Ok(u) => (s, Action::Reply(Ok(ResponseData(StatusCode::Created, Some(u))))),
                        Err(err) => (s, Action::Reply(Err(err))),
                    },
                    None => (s, Action::Reply(Err(DbError::RowNotFound))),
                }
            }
        },
        _ => (s, Action::Reply(Err(DbError::RowNotFound))),
    }
}

// ---------------------------------------------------------------------------
// Logging in: the user with the given email is handed its access token.

/// The statement that finds the user with an email.
pub open spec fn login_statement_view(email: Seq<char>) -> StatementView {
    StatementView { sql: LOGIN_SQL@, params: seq![SqlValueView::Text(email)], fetch: Fetch::Optional }
}

#[derive(PartialEq, Eq, Structural, Clone, Copy, Debug)]
pub enum LoginStage {
    /// Waiting for the user's row, if any.
    Fetch,
    Finished,
}

pub struct Login {
    pub stage: LoginStage,
}

/// The answer to a login, from the database's reply: the user, with its
/// token, when the email is known; `NotFound` when not.
pub open spec fn login_next(e: DbEventView) -> ActionView<UserView> {
    match e {
        DbEventView::Failed(err) => failure(err),
        DbEventView::Fetched(None) => answer(StatusCode::NotFound),
        DbEventView::Fetched(Some(cols)) => match spec_from_row(cols) {
            Ok(u) => answer_with(StatusCode::Success, u),
            Err(err) => failure(err),
        },
        _ => failure(DbErrorView::RowNotFound),
    }
}

impl Login {
    pub fn start(payload: &UserLoginPayload) -> (r: (Login, Action<User>))
        ensures
            r.0.stage == LoginStage::Fetch,
            r.1@ == ActionView::<UserView>::Run(login_statement_view(payload.email@)),
    {
        let st = statement(LOGIN_SQL, vec![text(&payload.email)], Fetch::Optional);
        assert(st@.params =~= seq![SqlValueView::Text(payload.email@)]);
        (Login { stage: LoginStage::Fetch }, Action::Run(st))
    }
}

/// One step of a login.
pub fn login(state: Login, event: DbEvent) -> (r: (Login, Action<User>))
    requires
        state.stage == LoginStage::Fetch,
        fits(Fetch::Optional, event@),
    ensures
        r.0.stage == LoginStage::Finished,
        r.1@ == login_next(event@),
{
    let done = Login { stage: LoginStage::Finished };
    match event {
        DbEvent::Failed(err) => (done, Action::Reply(Err(err))),
        DbEvent::Fetched(None) => (done, Action::Reply(Ok(ResponseData(StatusCode::NotFound, None)))),
        DbEvent::Fetched(Some(row)) => match from_row(&row) {
            Ok(u) => (done, Action::Reply(Ok(ResponseData(StatusCode::Success, Some(u))))),
            Err(err) => (done, Action::Reply(Err(err))),
        },
        _ => (done, Action::Reply(Err(DbError::RowNotFound))),
    }
}

/// Librarians and above are created by admins only: a creation of a user
/// whose mask grants the librarian level never inserts at once, and inserts
/// only after the requester's mask was found to grant the admin level; a
/// requester without a token, or without that level, is answered `Forbidden`.
pub proof fn lemma_only_admins_create_librarians(
    p_email: Seq<char>,
    p_mask: i32,
    p_requester: Option<Seq<char>>,
    s: CreateUserView,
    e: DbEventView,
)
    requires
        s.awaits(e),
    ensures
        needs_admin(p_mask) ==> create_user_start(p_email, p_mask, p_requester).0.stage != CreateUserStage::Insert,
        needs_admin(p_mask) && p_requester is None ==> create_user_start(p_email, p_mask, p_requester).1
            == answer::<UserView>(StatusCode::Forbidden),
        !needs_admin(p_mask) ==> create_user_start(p_email, p_mask, p_requester).1 == ActionView::<UserView>::Run(
            create_user_statement_view(p_email, p_mask, p_email),
        ),
        create_user_next(s, e).0.stage == CreateUserStage::Insert ==> (s.stage == CreateUserStage::CheckRequester
            && (e matches DbEventView::Fetched(row) && spec_check_access_mask(row, access_mask::ADMIN)
            == Ok::<bool, DbErrorView>(true)) && create_user_next(s, e).1 == ActionView::<UserView>::Run(
            s.insert(),
        )),
        (s.stage == CreateUserStage::CheckRequester && (e matches DbEventView::Fetched(row)
            && spec_check_access_mask(row, access_mask::ADMIN) == Ok::<bool, DbErrorView>(false)))
            ==> create_user_next(s, e).1 == answer::<UserView>(StatusCode::Forbidden),
{
}

/// A new user's token is its email.
pub proof fn lemma_new_token_is_email(s: CreateUserView)
    ensures
        s.insert().params[2] == SqlValueView::Text(s.email),
        s.insert().params[0] == SqlValueView::Text(s.email),
{
}

} // verus!
