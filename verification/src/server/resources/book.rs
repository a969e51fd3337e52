//! Books: looking one up, creating one, borrowing one, ending a borrow, and
//! listing them.
use vstd::prelude::*;
use crate::entities::access_mask;
use crate::entities::{
    Book, BookView, BookPublic, BookPublicView, BookCreatePayload, BookEndBorrowByTitlePayload,
    BookGetByTitlePayload, BookBorrowByTitlePayload, BookPublicListPayload, opt_view,
};
use crate::http::StatusCode;
use crate::sql::{
    Statement, StatementView, SqlValue, SqlValueView, Fetch, DbError, DbErrorView, DbEvent,
    DbEventView, Row, ColumnView, decode_text, decode_opt_text, decode_opt_bigint, decode_bool_at,
    get_text, get_opt_text, get_opt_bigint, get_bool_at,
};
use super::{Action, ActionView, ResponseData, answer, answer_with, failure, fits, text, statement};
use super::user::{access_mask_statement, access_mask_statement_view, check_access_mask, spec_check_access_mask};

verus! {

pub const GET_BY_TITLE_SQL: &'static str = "SELECT * FROM book WHERE title=$1";

pub const CREATE_SQL: &'static str = "INSERT INTO book (title) VALUES ($1) RETURNING *";

pub const EXISTS_SQL: &'static str = "SELECT EXISTS(SELECT 1 FROM book WHERE title=$1)";

pub const BORROW_SQL: &'static str = "UPDATE book SET borrow_until=$1, borrow_id=$2 WHERE title=$3 AND (borrow_until IS NULL OR borrow_until < $4)";

pub const BORROWER_SQL: &'static str = "SELECT borrow_id FROM book WHERE title=$1";

pub const END_BORROW_SQL: &'static str = "UPDATE book SET borrow_id = NULL, borrow_until = NULL WHERE title=$1";

pub const LIST_MATCHING_SQL: &'static str = "SELECT title, borrow_until FROM book WHERE title ILIKE CONCAT('%',$1,'%')";

pub const LIST_ALL_SQL: &'static str = "SELECT title, borrow_until FROM book";

pub const SEED_SQL: &'static str = "INSERT INTO book (title) VALUES (UNNEST($1::TEXT[])) RETURNING *";

/// The answer to a borrow that found the book taken.
pub const NOT_AVAILABLE: &'static str = "This book is not available for borrowing";

/// A book decoded from a row of the book table.
pub open spec fn spec_from_row(cols: Seq<ColumnView>) -> Result<BookView, DbErrorView> {
    match decode_text(cols, "title"@) {
        Err(e) => Err(e),
        Ok(title) => match decode_opt_text(cols, "borrow_id"@) {
            Err(e) => Err(e),
            Ok(borrow_id) => match decode_opt_bigint(cols, "borrow_until"@) {
                Err(e) => Err(e),
                Ok(borrow_until) => Ok(BookView { title, borrow_id, borrow_until }),
            },
        },
    }
}

pub fn from_row(row: &Row) -> (r: Result<Book, DbError>)
    ensures
        match r {
            Ok(b) => spec_from_row(row@) == Ok::<BookView, DbErrorView>(b@),
            Err(e) => spec_from_row(row@) == Err::<BookView, DbErrorView>(e@),
        },
{
    let title = match get_text(row, "title") {
        Ok(v) => v,
        Err(e) => return Err(e),
    };
    let borrow_id = match get_opt_text(row, "borrow_id") {
        Ok(v) => v,
        Err(e) => return Err(e),
    };
    let borrow_until = match get_opt_bigint(row, "borrow_until") {
        Ok(v) => v,
        Err(e) => return Err(e),
    };
    Ok(Book { title, borrow_id, borrow_until })
}

/// A book, as the public sees it, decoded from a row.
pub open spec fn spec_public_from_row(cols: Seq<ColumnView>) -> Result<BookPublicView, DbErrorView> {
    match decode_text(cols, "title"@) {
        Err(e) => Err(e),
        Ok(title) => match decode_opt_bigint(cols, "borrow_until"@) {
            Err(e) => Err(e),
            Ok(borrow_until) => Ok(BookPublicView { title, borrow_until }),
        },
    }
}

pub fn public_from_row(row: &Row) -> (r: Result<BookPublic, DbError>)
    ensures
        match r {
            Ok(b) => spec_public_from_row(row@) == Ok::<BookPublicView, DbErrorView>(b@),
            Err(e) => spec_public_from_row(row@) == Err::<BookPublicView, DbErrorView>(e@),
        },
{
    let title = match get_text(row, "title") {
        Ok(v) => v,
        Err(e) => return Err(e),
    };
    let borrow_until = match get_opt_bigint(row, "borrow_until") {
        Ok(v) => v,
        Err(e) => return Err(e),
    };
    Ok(BookPublic { title, borrow_until })
}

/// The rows decoded in order; the first row that fails to decode gives the error.
pub open spec fn spec_books_from_rows(rows: Seq<Seq<ColumnView>>) -> Result<Seq<BookView>, DbErrorView>
    decreases rows.len(),
{
    if rows.len() == 0 {
        Ok(seq![])
    } else {
        match spec_books_from_rows(rows.drop_last()) {
            Err(e) => Err(e),
            Ok(books) => match spec_from_row(rows.last()) {
                Err(e) => Err(e),
                Ok(b) => Ok(books.push(b)),
            },
        }
    }
}

pub open spec fn spec_public_from_rows(rows: Seq<Seq<ColumnView>>) -> Result<Seq<BookPublicView>, DbErrorView>
    decreases rows.len(),
{
    if rows.len() == 0 {
        Ok(seq![])
    } else {
        match spec_public_from_rows(rows.drop_last()) {
            Err(e) => Err(e),
            Ok(books) => match spec_public_from_row(rows.last()) {
                Err(e) => Err(e),
                Ok(b) => Ok(books.push(b)),
            },
        }
    }
}

proof fn lemma_books_error_persists(rows: Seq<Seq<ColumnView>>, k: int, m: int)
    requires
        0 <= k <= m <= rows.len(),
        spec_books_from_rows(rows.take(k)) is Err,
    ensures
        spec_books_from_rows(rows.take(m)) == spec_books_from_rows(rows.take(k)),
    decreases m - k,
{
    if m > k {
        lemma_books_error_persists(rows, k, m - 1);
        assert(rows.take(m).drop_last() =~= rows.take(m - 1));
    }
}

proof fn lemma_public_error_persists(rows: Seq<Seq<ColumnView>>, k: int, m: int)
    requires
        0 <= k <= m <= rows.len(),
        spec_public_from_rows(rows.take(k)) is Err,
    ensures
        spec_public_from_rows(rows.take(m)) == spec_public_from_rows(rows.take(k)),
    decreases m - k,
{
    if m > k {
        lemma_public_error_persists(rows, k, m - 1);
        assert(rows.take(m).drop_last() =~= rows.take(m - 1));
    }
}

pub open spec fn rows_view(rows: Seq<Row>) -> Seq<Seq<ColumnView>> {
    rows.map_values(|r: Row| r@)
}

pub open spec fn books_view(books: Seq<Book>) -> Seq<BookView> {
    books.map_values(|b: Book| b@)
}

pub open spec fn public_view(books: Seq<BookPublic>) -> Seq<BookPublicView> {
    books.map_values(|b: BookPublic| b@)
}

/// Decodes every row into a book.
pub fn books_from_rows(rows: &Vec<Row>) -> (r: Result<Vec<Book>, DbError>)
    ensures
        match r {
            Ok(books) => spec_books_from_rows(rows_view(rows@)) == Ok::<Seq<BookView>, DbErrorView>(books_view(books@)),
            Err(e) => spec_books_from_rows(rows_view(rows@)) == Err::<Seq<BookView>, DbErrorView>(e@),
        },
{
    let ghost all = rows_view(rows@);
    let mut books: Vec<Book> = Vec::new();
    let n = rows.len();
    let mut i: usize = 0;
    assert(all.take(0) =~= seq![]);
    assert(books_view(books@) =~= seq![]);
    while i < n
        invariant
            n == rows@.len(),
            all == rows_view(rows@),
            i <= n,
            spec_books_from_rows(all.take(i as int)) == Ok::<Seq<BookView>, DbErrorView>(books_view(books@)),
        decreases n - i,
    {
        assert(all.take(i + 1).drop_last() =~= all.take(i as int));
        assert(all.take(i + 1).last() == rows@[i as int]@);
        match from_row(&rows[i]) {
            Ok(b) => {
                let ghost prev = books_view(books@);
                let ghost bv = b@;
                books.push(b);
                assert(books_view(books@) =~= prev.push(bv));
            },
            Err(e) => {
                proof {
                    lemma_books_error_persists(all, i + 1, n as int);
                    assert(all.take(n as int) =~= all);
                }
                return Err(e);
            },
        }
        i = i + 1;
    }
    assert(all.take(n as int) =~= all);
    Ok(books)
}

/// Decodes every row into a book as the public sees it.
pub fn public_from_rows(rows: &Vec<Row>) -> (r: Result<Vec<BookPublic>, DbError>)
    ensures
        match r {
            Ok(books) => spec_public_from_rows(rows_view(rows@)) == Ok::<Seq<BookPublicView>, DbErrorView>(public_view(books@)),
            Err(e) => spec_public_from_rows(rows_view(rows@)) == Err::<Seq<BookPublicView>, DbErrorView>(e@),
        },
{
    let ghost all = rows_view(rows@);
    let mut books: Vec<BookPublic> = Vec::new();
    let n = rows.len();
    let mut i: usize = 0;
    assert(all.take(0) =~= seq![]);
    assert(public_view(books@) =~= seq![]);
    while i < n
        invariant
            n == rows@.len(),
            all == rows_view(rows@),
            i <= n,
            spec_public_from_rows(all.take(i as int)) == Ok::<Seq<BookPublicView>, DbErrorView>(public_view(books@)),
        decreases n - i,
    {
        assert(all.take(i + 1).drop_last() =~= all.take(i as int));
        assert(all.take(i + 1).last() == rows@[i as int]@);
        match public_from_row(&rows[i]) {
            Ok(b) => {
                let ghost prev = public_view(books@);
                let ghost bv = b@;
                books.push(b);
                assert(public_view(books@) =~= prev.push(bv));
            },
            Err(e) => {
                proof {
                    lemma_public_error_persists(all, i + 1, n as int);
                    assert(all.take(n as int) =~= all);
                }
                return Err(e);
            },
        }
        i = i + 1;
    }
    assert(all.take(n as int) =~= all);
    Ok(books)
}

/// The titles that a fresh database is seeded with.
pub open spec fn seed_titles() -> Seq<Seq<char>> {
    seq!["Cinderella"@, "Rapunzel"@, "Snow White"@]
}

/// The statement that seeds a fresh database with books.
pub open spec fn seed_statement_view() -> StatementView {
    StatementView { sql: SEED_SQL@, params: seq![SqlValueView::TextArray(seed_titles())], fetch: Fetch::All }
}

pub fn seed_statement() -> (s: Statement)
    ensures
        s@ == seed_statement_view(),
{
    let titles: Vec<String> = vec![
        "Cinderella".to_owned(),
        "Rapunzel".to_owned(),
        "Snow White".to_owned(),
    ];
    let s = statement(SEED_SQL, vec![SqlValue::TextArray(titles)], Fetch::All);
    assert(s@.params =~= seq![SqlValueView::TextArray(seed_titles())]) by {
        assert(titles@.map_values(|t: String| t@) =~= seed_titles());
    }
    s
}

/// The seeded books, from the rows the seeding statement returned.
pub fn seed(rows: &Vec<Row>) -> (r: Result<Vec<Book>, DbError>)
    ensures
        match r {
            Ok(books) => spec_books_from_rows(rows_view(rows@)) == Ok::<Seq<BookView>, DbErrorView>(books_view(books@)),
            Err(e) => spec_books_from_rows(rows_view(rows@)) == Err::<Seq<BookView>, DbErrorView>(e@),
        },
{
    books_from_rows(rows)
}

// ---------------------------------------------------------------------------
// Looking a book up by its title.

pub open spec fn get_by_title_statement_view(title: Seq<char>) -> StatementView {
    StatementView { sql: GET_BY_TITLE_SQL@, params: seq![SqlValueView::Text(title)], fetch: Fetch::Optional }
}

#[derive(PartialEq, Eq, Structural, Clone, Copy, Debug)]
pub enum GetStage {
    /// Waiting for the book's row, if any.
    Fetch,
    Finished,
}

pub struct GetByTitle {
    pub stage: GetStage,
}

/// The answer to a lookup, from the database's reply.
pub open spec fn get_by_title_next(e: DbEventView) -> ActionView<BookView> {
    match e {
        DbEventView::Failed(err) => failure(err),
        DbEventView::Fetched(None) => answer(StatusCode::NotFound),
        DbEventView::Fetched(Some(cols)) => match spec_from_row(cols) {
            Ok(b) => answer_with(StatusCode::Success, b),
            Err(err) => failure(err),
        },
        _ => failure(DbErrorView::RowNotFound),
    }
}

impl GetByTitle {
    pub fn start(payload: &BookGetByTitlePayload) -> (r: (GetByTitle, Action<Book>))
        ensures
            r.0.stage == GetStage::Fetch,
            r.1@ == ActionView::<BookView>::Run(get_by_title_statement_view(payload.title@)),
            r.1@ matches ActionView::Run(st) && st.sql == GET_BY_TITLE_SQL@ && st.params == seq![
                SqlValueView::Text(payload.title@),
            ],
    {
        let st = statement(GET_BY_TITLE_SQL, vec![text(&payload.title)], Fetch::Optional);
        assert(st@.params =~= seq![SqlValueView::Text(payload.title@)]);
        (GetByTitle { stage: GetStage::Fetch }, Action::Run(st))
    }
}

/// One step of a lookup: the book when its row is found, `NotFound` when not.
pub fn get_by_title(state: GetByTitle, event: DbEvent) -> (r: (GetByTitle, Action<Book>))
    requires
        state.stage == GetStage::Fetch,
        fits(Fetch::Optional, event@),
    ensures
        r.0.stage == GetStage::Finished,
        r.1@ == get_by_title_next(event@),
{
    let done = GetByTitle { stage: GetStage::Finished };
    match event {
        DbEvent::Failed(err) => (done, Action::Reply(Err(err))),
        DbEvent::Fetched(None) => (done, Action::Reply(Ok(ResponseData(StatusCode::NotFound, None)))),
        DbEvent::Fetched(Some(row)) => match from_row(&row) {
            Ok(b) => (done, Action::Reply(Ok(ResponseData(StatusCode::Success, Some(b))))),
            Err(err) => (done, Action::Reply(Err(err))),
        },
        _ => (done, Action::Reply(Err(DbError::RowNotFound))),
    }
}

// ---------------------------------------------------------------------------
// Creating a book: librarians only.

pub open spec fn create_statement_view(title: Seq<char>) -> StatementView {
    StatementView { sql: CREATE_SQL@, params: seq![SqlValueView::Text(title)], fetch: Fetch::One }
}

#[derive(PartialEq, Eq, Structural, Clone, Copy, Debug)]
pub enum CreateStage {
    /// Waiting for the access mask of the requester.
    CheckLibrarian,
    /// Waiting for the inserted book.
    Insert,
    Finished,
}

pub struct CreateBook {
    pub title: String,
    pub stage: CreateStage,
}

pub struct CreateBookView {
    pub title: Seq<char>,
    pub stage: CreateStage,
}

impl View for CreateBook {
    type V = CreateBookView;

    open spec fn view(&self) -> CreateBookView {
        CreateBookView { title: self.title@, stage: self.stage }
    }
}

impl CreateBookView {
    pub open spec fn awaits(self, e: DbEventView) -> bool {
        match self.stage {
            CreateStage::CheckLibrarian => fits(Fetch::Optional, e),
            CreateStage::Insert => fits(Fetch::One, e),
            CreateStage::Finished => false,
        }
    }
}

/// One step of a creation.
pub open spec fn create_next(s: CreateBookView, e: DbEventView) -> (CreateBookView, ActionView<BookView>) {
    let done = CreateBookView { stage: CreateStage::Finished, ..s };
    match e {
        DbEventView::Failed(err) => (done, failure(err)),
        DbEventView::Fetched(row) => match s.stage {
            CreateStage::CheckLibrarian => match spec_check_access_mask(row, access_mask::LIBRARIAN) {
                Ok(true) => (CreateBookView { stage: CreateStage::Insert, ..s }, ActionView::Run(create_statement_view(s.title))),
                Ok(false) => (done, answer(StatusCode::Forbidden)),
                Err(err) => (done, failure(err)),
            },
            _ => match row {
                Some(cols) => match spec_from_row(cols) {
                    Ok(b) => (done, answer_with(StatusCode::Created, b)),
                    Err(err) => (done, failure(err)),
                },
                None => (done, failure(DbErrorView::RowNotFound)),
            },
        },
        _ => (done, failure(DbErrorView::RowNotFound)),
    }
}

impl CreateBook {
    pub fn start(payload: &BookCreatePayload) -> (r: (CreateBook, Action<Book>))
        ensures
            r.0@ == (CreateBookView { title: payload.title@, stage: CreateStage::CheckLibrarian }),
            r.1@ == ActionView::<BookView>::Run(access_mask_statement_view(payload.access_token@)),
    {
        let st = access_mask_statement(&payload.access_token);
        (CreateBook { title: payload.title.clone(), stage: CreateStage::CheckLibrarian }, Action::Run(st))
    }
}

/// One step of a creation: the book is inserted only for a requester whose
/// access mask grants the librarian level.
pub fn create(state: CreateBook, event: DbEvent) -> (r: (CreateBook, Action<Book>))
    requires
        state@.awaits(event@),
    ensures
        (r.0@, r.1@) == create_next(state@, event@),
        r.0.stage == CreateStage::Insert ==> (r.0.title@ == state.title@ && (r.1@ matches ActionView::Run(st)
            && st.sql == CREATE_SQL@ && st.params == seq![SqlValueView::Text(state.title@)])),
{
    let mut s = state;
    let stage = s.stage;
    s.stage = CreateStage::Finished;
    match event {
        DbEvent::Failed(err) => (s, Action::Reply(Err(err))),
        DbEvent::Fetched(row) => {
            if stage == CreateStage::CheckLibrarian {
                match check_access_mask(&row, access_mask::LIBRARIAN) {
                    Ok(true) => {
                        s.stage = CreateStage::Insert;
                        let st = statement(CREATE_SQL, vec![text(&s.title)], Fetch::One);
                        assert(st@.params =~= seq![SqlValueView::Text(s.title@)]);
                        (s, Action::Run(st))
                    },
                    Ok(false) => (s, Action::Reply(Ok(ResponseData(StatusCode::Forbidden, None)))),
                    Err(err) => (s, Action::Reply(Err(err))),
                }
            } else {
                match row {
                    Some(r) => match from_row(&r) {
                        Ok(b) => (s, Action::Reply(Ok(ResponseData(StatusCode::Created, Some(b))))),
                        Err(err) => (s, Action::Reply(Err(err))),
                    },
                    None => (s, Action::Reply(Err(DbError::RowNotFound))),
                }
            }
        },
        _ => (s, Action::Reply(Err(DbError::RowNotFound))),
    }
}

// ---------------------------------------------------------------------------
// Borrowing a book until a moment.

pub open spec fn exists_statement_view(title: Seq<char>) -> StatementView {
    StatementView { sql: EXISTS_SQL@, params: seq![SqlValueView::Text(title)], fetch: Fetch::One }
}

/// The statement that lends the book, unless it is lent until a later moment than now.
pub open spec fn borrow_statement_view(title: Seq<char>, borrow_id: Seq<char>, until: i64, now: i64) -> StatementView {
    StatementView {
        sql: BORROW_SQL@,
        params: seq![
            SqlValueView::BigInt(until),
            SqlValueView::Text(borrow_id),
            SqlValueView::Text(title),
            SqlValueView::BigInt(now),
        ],
        fetch: Fetch::Execute,
    }
}

#[derive(PartialEq, Eq, Structural, Clone, Copy, Debug)]
pub enum LeaseStage {
    /// Waiting to learn whether the book exists.
    CheckExists,
    /// Waiting for the number of books lent.
    Borrow,
    Finished,
}

pub struct LeaseByTitle {
    pub title: String,
    pub borrow_id: String,
    pub until: i64,
    pub now: i64,
    pub stage: LeaseStage,
}

pub struct LeaseByTitleView {
    pub title: Seq<char>,
    pub borrow_id: Seq<char>,
    pub until: i64,
    pub now: i64,
    pub stage: LeaseStage,
}

impl View for LeaseByTitle {
    type V = LeaseByTitleView;

    open spec fn view(&self) -> LeaseByTitleView {
        LeaseByTitleView {
            title: self.title@,
            borrow_id: self.borrow_id@,
            until: self.until,
            now: self.now,
            stage: self.stage,
        }
    }
}

impl LeaseByTitleView {
    pub open spec fn awaits(self, e: DbEventView) -> bool {
        match self.stage {
            LeaseStage::CheckExists => fits(Fetch::One, e),
            LeaseStage::Borrow => fits(Fetch::Execute, e),
            LeaseStage::Finished => false,
        }
    }
}

/// One step of a borrow.
pub open spec fn lease_next(s: LeaseByTitleView, e: DbEventView) -> (LeaseByTitleView, ActionView<Seq<char>>) {
    let done = LeaseByTitleView { stage: LeaseStage::Finished, ..s };
    match e {
        DbEventView::Failed(err) => (done, failure(err)),
        DbEventView::Fetched(Some(cols)) => match decode_bool_at(cols, 0) {
            Ok(true) => (
                LeaseByTitleView { stage: LeaseStage::Borrow, ..s },
                ActionView::Run(borrow_statement_view(s.title, s.borrow_id, s.until, s.now)),
            ),
            Ok(false) => (done, answer(StatusCode::NotFound)),
            Err(err) => (done, failure(err)),
        },
        DbEventView::Executed(n) => if n == 0 {
            (done, answer_with(StatusCode::Forbidden, NOT_AVAILABLE@))
        } else {
            (done, answer(StatusCode::Success))
        },
        _ => (done, failure(DbErrorView::RowNotFound)),
    }
}

impl LeaseByTitle {
    /// Starts a borrow at the moment `now`, in seconds since the epoch; the
    /// book is lent until `now` plus the borrow's length.
    pub fn start(payload: &BookBorrowByTitlePayload, now: i64) -> (r: (LeaseByTitle, Action<String>))
        requires
            i64::MIN <= now + payload.borrow_length <= i64::MAX,
        ensures
            r.0@ == (LeaseByTitleView {
                title: payload.title@,
                borrow_id: payload.borrow_id@,
                until: (now + payload.borrow_length) as i64,
                now,
                stage: LeaseStage::CheckExists,
            }),
            r.1@ == ActionView::<Seq<char>>::Run(exists_statement_view(payload.title@)),
            r.1@ matches ActionView::Run(st) && st.sql == EXISTS_SQL@ && st.params == seq![
                SqlValueView::Text(payload.title@),
            ],
    {
        let st = statement(EXISTS_SQL, vec![text(&payload.title)], Fetch::One);
        assert(st@.params =~= seq![SqlValueView::Text(payload.title@)]);
        (
            LeaseByTitle {
                title: payload.title.clone(),
                borrow_id: payload.borrow_id.clone(),
                until: now + payload.borrow_length,
                now,
                stage: LeaseStage::CheckExists,
            },
            Action::Run(st),
        )
    }
}

/// One step of a borrow: `NotFound` for a missing book; otherwise the book is
/// lent unless it is lent until a later moment, and `Forbidden` says it was.
pub fn lease_by_id(state: LeaseByTitle, event: DbEvent) -> (r: (LeaseByTitle, Action<String>))
    requires
        state@.awaits(event@),
    ensures
        (r.0@, r.1@) == lease_next(state@, event@),
{
    let mut s = state;
    s.stage = LeaseStage::Finished;
    match event {
        DbEvent::Failed(err) => (s, Action::Reply(Err(err))),
        DbEvent::Fetched(Some(row)) => match get_bool_at(&row, 0) {
            Ok(true) => {
                s.stage = LeaseStage::Borrow;
                let st = statement(
                    BORROW_SQL,
                    vec![SqlValue::BigInt(s.until), text(&s.borrow_id), text(&s.title), SqlValue::BigInt(s.now)],
                    Fetch::Execute,
                );
                assert(st@.params =~= seq![
                    SqlValueView::BigInt(s.until),
                    SqlValueView::Text(s.borrow_id@),
                    SqlValueView::Text(s.title@),
                    SqlValueView::BigInt(s.now),
                ]);
                (s, Action::Run(st))
            },
            Ok(false) => (s, Action::Reply(Ok(ResponseData(StatusCode::NotFound, None)))),
            Err(err) => (s, Action::Reply(Err(err))),
        },
        DbEvent::Executed(n) => {
            if n == 0 {
                (s, Action::Reply(Ok(ResponseData(StatusCode::Forbidden, Some(NOT_AVAILABLE.to_owned())))))
            } else {
                (s, Action::Reply(Ok(ResponseData(StatusCode::Success, None))))
            }
        },
        _ => (s, Action::Reply(Err(DbError::RowNotFound))),
    }
}

// ---------------------------------------------------------------------------
// Ending a borrow: by the borrower, or by a librarian.

pub open spec fn borrower_statement_view(title: Seq<char>) -> StatementView {
    StatementView { sql: BORROWER_SQL@, params: seq![SqlValueView::Text(title)], fetch: Fetch::Optional }
}

pub open spec fn end_borrow_statement_view(title: Seq<char>) -> StatementView {
    StatementView { sql: END_BORROW_SQL@, params: seq![SqlValueView::Text(title)], fetch: Fetch::Execute }
}

#[derive(PartialEq, Eq, Structural, Clone, Copy, Debug)]
pub enum EndLoanStage {
    /// Waiting for the book's row, with its borrower.
    LookUpBorrower,
    /// Waiting for the access mask of the requester.
    CheckLibrarian,
    /// Waiting for the number of books returned.
    EndBorrow,
    Finished,
}

pub struct EndLoanByTitle {
    pub title: String,
    pub access_token: String,
    pub stage: EndLoanStage,
}

pub struct EndLoanByTitleView {
    pub title: Seq<char>,
    pub access_token: Seq<char>,
    pub stage: EndLoanStage,
}

impl View for EndLoanByTitle {
    type V = EndLoanByTitleView;

    open spec fn view(&self) -> EndLoanByTitleView {
        EndLoanByTitleView { title: self.title@, access_token: self.access_token@, stage: self.stage }
    }
}

impl EndLoanByTitleView {
    pub open spec fn awaits(self, e: DbEventView) -> bool {
        match self.stage {
            EndLoanStage::LookUpBorrower => fits(Fetch::Optional, e),
            EndLoanStage::CheckLibrarian => fits(Fetch::Optional, e),
            EndLoanStage::EndBorrow => fits(Fetch::Execute, e),
            EndLoanStage::Finished => false,
        }
    }

    pub open spec fn with_stage(self, stage: EndLoanStage) -> EndLoanByTitleView {
        EndLoanByTitleView { stage, ..self }
    }
}

/// One step of ending a borrow.
pub open spec fn end_loan_next(s: EndLoanByTitleView, e: DbEventView) -> (EndLoanByTitleView, ActionView<()>) {
    let done = s.with_stage(EndLoanStage::Finished);
    let end = (s.with_stage(EndLoanStage::EndBorrow), ActionView::Run(end_borrow_statement_view(s.title)));
    match e {
        DbEventView::Failed(err) => (done, failure(err)),
        DbEventView::Fetched(row) => match s.stage {
            EndLoanStage::LookUpBorrower => match row {
                None => (done, answer(StatusCode::NotFound)),
                Some(cols) => match decode_opt_text(cols, "borrow_id"@) {
                    Err(err) => (done, failure(err)),
                    Ok(None) => (done, answer(StatusCode::Success)),
                    Ok(Some(borrower)) => if borrower == s.access_token {
                        end
                    } else {
                        (s.with_stage(EndLoanStage::CheckLibrarian), ActionView::Run(access_mask_statement_view(s.access_token)))
                    },
                },
            },
            _ => match spec_check_access_mask(row, access_mask::LIBRARIAN) {
                Ok(true) => end,
                Ok(false) => (done, answer(StatusCode::Forbidden)),
                Err(err) => (done, failure(err)),
            },
        },
        DbEventView::Executed(n) => if n == 0 {
            (done, answer(StatusCode::NotFound))
        } else {
            (done, answer(StatusCode::Success))
        },
        _ => (done, failure(DbErrorView::RowNotFound)),
    }
}

impl EndLoanByTitle {
    pub fn start(payload: &BookEndBorrowByTitlePayload) -> (r: (EndLoanByTitle, Action<()>))
        ensures
            r.0@ == (EndLoanByTitleView {
                title: payload.title@,
                access_token: payload.access_token@,
                stage: EndLoanStage::LookUpBorrower,
            }),
            r.1@ == ActionView::<()>::Run(borrower_statement_view(payload.title@)),
    {
        let st = statement(BORROWER_SQL, vec![text(&payload.title)], Fetch::Optional);
        assert(st@.params =~= seq![SqlValueView::Text(payload.title@)]);
        (
            EndLoanByTitle {
                title: payload.title.clone(),
                access_token: payload.access_token.clone(),
                stage: EndLoanStage::LookUpBorrower,
            },
            Action::Run(st),
        )
    }
}

fn end_borrow(s: EndLoanByTitle) -> (r: (EndLoanByTitle, Action<()>))
    ensures
        r.0@ == s@.with_stage(EndLoanStage::EndBorrow),
        r.1@ == ActionView::<()>::Run(end_borrow_statement_view(s.title@)),
{
    let mut s = s;
    s.stage = EndLoanStage::EndBorrow;
    let st = statement(END_BORROW_SQL, vec![text(&s.title)], Fetch::Execute);
    assert(st@.params =~= seq![SqlValueView::Text(s.title@)]);
    (s, Action::Run(st))
}

/// One step of ending a borrow: a book that is not lent needs nothing; a lent
/// one is returned when the requester's token is its borrower or the
/// requester is a librarian, and is `Forbidden` otherwise.
pub fn end_loan_by_title(state: EndLoanByTitle, event: DbEvent) -> (r: (EndLoanByTitle, Action<()>))
    requires
        state@.awaits(event@),
    ensures
        (r.0@, r.1@) == end_loan_next(state@, event@),
        state.stage == EndLoanStage::CheckLibrarian && (event@ matches DbEventView::Fetched(row)
            && spec_check_access_mask(row, access_mask::LIBRARIAN) == Ok::<bool, DbErrorView>(true)) ==> (r.0.stage
            == EndLoanStage::EndBorrow && (r.1@ matches ActionView::Run(st) && st.sql == END_BORROW_SQL@ && st.params
            == seq![SqlValueView::Text(state.title@)])),
{
    let stage = state.stage;
    let mut s = state;
    match event {
        DbEvent::Failed(err) => {
            s.stage = EndLoanStage::Finished;
            (s, Action::Reply(Err(err)))
        },
        DbEvent::Fetched(row) => {
            if stage == EndLoanStage::LookUpBorrower {
                match row {
                    None => {
                        s.stage = EndLoanStage::Finished;
                        (s, Action::Reply(Ok(ResponseData(StatusCode::NotFound, None))))
                    },
                    Some(r) => match get_opt_text(&r, "borrow_id") {
                        Err(err) => {
                            s.stage = EndLoanStage::Finished;
                            (s, Action::Reply(Err(err)))
                        },
                        Ok(None) => {
                            s.stage = EndLoanStage::Finished;
                            (s, Action::Reply(Ok(ResponseData(StatusCode::Success, None))))
                        },
                        Ok(Some(borrower)) => {
                            if borrower == s.access_token {
                                end_borrow(s)
                            } else {
                                s.stage = EndLoanStage::CheckLibrarian;
                                let st = access_mask_statement(&s.access_token);
                                (s, Action::Run(st))
                            }
                        },
                    },
                }
            } else {
                match check_access_mask(&row, access_mask::LIBRARIAN) {
                    Ok(true) => end_borrow(s),
                    Ok(false) => {
                        s.stage = EndLoanStage::Finished;
                        (s, Action::Reply(Ok(ResponseData(StatusCode::Forbidden, None))))
                    },
                    Err(err) => {
                        s.stage = EndLoanStage::Finished;
                        (s, Action::Reply(Err(err)))
                    },
                }
            }
        },
        DbEvent::Executed(n) => {
            s.stage = EndLoanStage::Finished;
            if n == 0 {
                (s, Action::Reply(Ok(ResponseData(StatusCode::NotFound, None))))
            } else {
                (s, Action::Reply(Ok(ResponseData(StatusCode::Success, None))))
            }
        },
        _ => {
            s.stage = EndLoanStage::Finished;
            (s, Action::Reply(Err(DbError::RowNotFound)))
        },
    }
}

// ---------------------------------------------------------------------------
// Listing books, all of them or those whose title holds the query.

pub open spec fn list_statement_view(query: Option<Seq<char>>) -> StatementView {
    match query {
        Some(q) => StatementView { sql: LIST_MATCHING_SQL@, params: seq![SqlValueView::Text(q)], fetch: Fetch::All },
        None => StatementView { sql: LIST_ALL_SQL@, params: seq![], fetch: Fetch::All },
    }
}

#[derive(PartialEq, Eq, Structural, Clone, Copy, Debug)]
pub enum ListStage {
    /// Waiting for the rows.
    List,
    Finished,
}

pub struct PublicList {
    pub stage: ListStage,
}

/// The answer to a listing, from the database's reply.
pub open spec fn public_list_next(e: DbEventView) -> ActionView<Seq<BookPublicView>> {
    match e {
        DbEventView::Failed(err) => failure(err),
        DbEventView::FetchedAll(rows) => match spec_public_from_rows(rows) {
            Ok(books) => answer_with(StatusCode::Success, books),
            Err(err) => failure(err),
        },
        _ => failure(DbErrorView::RowNotFound),
    }
}

/// A listing's action, its books taken by their views.
pub open spec fn list_action_view(a: ActionView<Seq<BookPublic>>) -> ActionView<Seq<BookPublicView>> {
    match a {
        ActionView::Run(st) => ActionView::Run(st),
        ActionView::Reply(Ok((status, Some(books)))) => ActionView::Reply(Ok((status, Some(public_view(books))))),
        ActionView::Reply(Ok((status, None))) => ActionView::Reply(Ok((status, None))),
        ActionView::Reply(Err(err)) => ActionView::Reply(Err(err)),
    }
}

impl PublicList {
    pub fn start(payload: &BookPublicListPayload) -> (r: (PublicList, Action<Vec<BookPublic>>))
        ensures
            r.0.stage == ListStage::List,
            list_action_view(r.1@) == ActionView::<Seq<BookPublicView>>::Run(list_statement_view(opt_view(payload.query))),
            r.1@ matches ActionView::Run(st) && match payload.query {
                Some(q) => st.sql == LIST_MATCHING_SQL@ && st.params == seq![SqlValueView::Text(q@)],
                None => st.sql == LIST_ALL_SQL@ && st.params.len() == 0,
            },
    {
        let st = match &payload.query {
            Some(q) => {
                let st = statement(LIST_MATCHING_SQL, vec![text(q)], Fetch::All);
                assert(st@.params =~= seq![SqlValueView::Text(q@)]);
                st
            },
            None => {
                let st = statement(LIST_ALL_SQL, Vec::new(), Fetch::All);
                assert(st@.params =~= seq![]);
                st
            },
        };
        (PublicList { stage: ListStage::List }, Action::Run(st))
    }
}

/// One step of a listing: every row decoded, in order.
pub fn public_list_by_query(state: PublicList, event: DbEvent) -> (r: (PublicList, Action<Vec<BookPublic>>))
    requires
        state.stage == ListStage::List,
        fits(Fetch::All, event@),
    ensures
        r.0.stage == ListStage::Finished,
        list_action_view(r.1@) == public_list_next(event@),
{
    let done = PublicList { stage: ListStage::Finished };
    match event {
        DbEvent::Failed(err) => (done, Action::Reply(Err(err))),
        DbEvent::FetchedAll(rows) => match public_from_rows(&rows) {
            Ok(books) => (done, Action::Reply(Ok(ResponseData(StatusCode::Success, Some(books))))),
            Err(err) => (done, Action::Reply(Err(err))),
        },
        _ => (done, Action::Reply(Err(DbError::RowNotFound))),
    }
}

// ---------------------------------------------------------------------------
// The rules that the handlers keep, over every state and every reply.

/// Only a librarian creates books: a creation inserts the book only after the
/// requester's access mask was found to grant the librarian level, and a
/// requester without it is answered `Forbidden`.
pub proof fn lemma_only_librarians_create(s: CreateBookView, e: DbEventView)
    requires
        s.awaits(e),
    ensures
        create_next(s, e).0.stage == CreateStage::Insert ==> (s.stage == CreateStage::CheckLibrarian
            && (e matches DbEventView::Fetched(row) && spec_check_access_mask(row, access_mask::LIBRARIAN)
            == Ok::<bool, DbErrorView>(true)) && create_next(s, e).1 == ActionView::<BookView>::Run(
            create_statement_view(s.title),
        )),
        (s.stage == CreateStage::CheckLibrarian && (e matches DbEventView::Fetched(row)
            && spec_check_access_mask(row, access_mask::LIBRARIAN) == Ok::<bool, DbErrorView>(false)))
            ==> create_next(s, e).1 == answer::<BookView>(StatusCode::Forbidden),
{
}

/// Only the borrower or a librarian ends a borrow: the book is returned only
/// when the requester's token is the book's borrower, or when the requester's
/// access mask grants the librarian level; anyone else is answered `Forbidden`.
pub proof fn lemma_only_borrower_or_librarian_ends(s: EndLoanByTitleView, e: DbEventView)
    requires
        s.awaits(e),
    ensures
        end_loan_next(s, e).0.stage == EndLoanStage::EndBorrow ==> (end_loan_next(s, e).1
            == ActionView::<()>::Run(end_borrow_statement_view(s.title)) && (e matches DbEventView::Fetched(row)
            && ((s.stage == EndLoanStage::LookUpBorrower && (row matches Some(cols) && decode_opt_text(
            cols,
            "borrow_id"@,
        ) == Ok::<Option<Seq<char>>, DbErrorView>(Some(s.access_token)))) || (s.stage
            == EndLoanStage::CheckLibrarian && spec_check_access_mask(row, access_mask::LIBRARIAN)
            == Ok::<bool, DbErrorView>(true))))),
        (s.stage == EndLoanStage::CheckLibrarian && (e matches DbEventView::Fetched(row)
            && spec_check_access_mask(row, access_mask::LIBRARIAN) == Ok::<bool, DbErrorView>(false)))
            ==> end_loan_next(s, e).1 == answer::<()>(StatusCode::Forbidden),
{
}

/// Ending a borrow asks about the requester's level only when the requester is
/// not the borrower, and ends at once, with `Success`, for a book that is not
/// lent, and with `NotFound` for a book that does not exist.
pub proof fn lemma_end_loan_lookup(s: EndLoanByTitleView, cols: Seq<ColumnView>)
    requires
        s.stage == EndLoanStage::LookUpBorrower,
    ensures
        end_loan_next(s, DbEventView::Fetched(None)).1 == answer::<()>(StatusCode::NotFound),
        decode_opt_text(cols, "borrow_id"@) == Ok::<Option<Seq<char>>, DbErrorView>(None) ==> end_loan_next(
            s,
            DbEventView::Fetched(Some(cols)),
        ).1 == answer::<()>(StatusCode::Success),
        (decode_opt_text(cols, "borrow_id"@) matches Ok(Some(b)) && b != s.access_token) ==> end_loan_next(
            s,
            DbEventView::Fetched(Some(cols)),
        ) == (s.with_stage(EndLoanStage::CheckLibrarian), ActionView::<()>::Run(
            access_mask_statement_view(s.access_token),
        )),
{
}

/// A borrow lends the book only once the book is known to exist; it lends it
/// to the payload's borrower until `now` plus the borrow's length; and the
/// answer is `Forbidden`, with the reason, exactly when no book was lent.
pub proof fn lemma_borrow(s: LeaseByTitleView, e: DbEventView)
    requires
        s.awaits(e),
    ensures
        lease_next(s, e).0.stage == LeaseStage::Borrow ==> (s.stage == LeaseStage::CheckExists
            && (e matches DbEventView::Fetched(Some(cols)) && decode_bool_at(cols, 0) == Ok::<bool, DbErrorView>(true))
            && lease_next(s, e).1 == ActionView::<Seq<char>>::Run(
            borrow_statement_view(s.title, s.borrow_id, s.until, s.now),
        )),
        s.stage == LeaseStage::Borrow ==> match e {
            DbEventView::Executed(n) => (lease_next(s, e).1 == answer_with(StatusCode::Forbidden, NOT_AVAILABLE@))
                == (n == 0),
            _ => true,
        },
{
}

/// A borrow started at `now` for `length` seconds lends the book until `now + length`.
pub proof fn lemma_borrow_until(p_title: Seq<char>, p_borrow_id: Seq<char>, now: i64, length: i64)
    requires
        i64::MIN <= now + length <= i64::MAX,
    ensures
        ({
            let s = LeaseByTitleView {
                title: p_title,
                borrow_id: p_borrow_id,
                until: (now + length) as i64,
                now,
                stage: LeaseStage::CheckExists,
            };
            let granted = lease_next(s, DbEventView::Fetched(Some(seq![crate::sql::ColumnView {
                name: "exists"@,
                value: SqlValueView::Bool(true),
            }])));
            granted.1 == ActionView::<Seq<char>>::Run(borrow_statement_view(p_title, p_borrow_id, (now + length) as i64, now))
        }),
{
}

} // verus!
