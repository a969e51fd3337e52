//! What the statements of the book handlers do to the book table, one spec
//! function for each statement, as their SQL reads: the table holds at most
//! one book for each title (its primary key). Over this reading, the rules
//! that the service promises across requests are proved: a lent book is not
//! lent again while its borrow lasts, a returned book can be lent again, a
//! created book can be looked up, a listing answers exactly the books whose
//! title matches the query. The whole runs take each statement as the handler
//! issued it, parameters included, so what they prove is about the requested
//! titles, borrowers and queries themselves.
use vstd::prelude::*;
use crate::entities::{BookView, BookPublicView};
use crate::http::StatusCode;
use crate::sql::{ColumnView, SqlValueView, DbEventView, DbErrorView, StatementView, Fetch, decode_opt_text, lookup};
use crate::entities::access_mask::{self, spec_grants};
use super::{ActionView, answer, answer_with, failure};
use super::book::{
    spec_from_row, spec_public_from_row, spec_public_from_rows, get_by_title_next, create_next, lease_next,
    end_loan_next, public_list_next,
    CreateBookView, CreateStage, LeaseByTitleView, LeaseStage,
    EndLoanByTitleView, EndLoanStage, NOT_AVAILABLE,
    GET_BY_TITLE_SQL, EXISTS_SQL, BORROW_SQL, BORROWER_SQL, END_BORROW_SQL, CREATE_SQL, LIST_ALL_SQL,
    LIST_MATCHING_SQL, get_by_title_statement_view, exists_statement_view, borrower_statement_view,
    list_statement_view,
};

verus! {

/// The book table: each title to its book.
pub type BookTable = Map<Seq<char>, BookView>;

/// Each book is kept under its own title, the table's primary key.
pub open spec fn keyed_by_title(t: BookTable) -> bool {
    forall|ti: Seq<char>| #[trigger] t.contains_key(ti) ==> t[ti].title == ti
}

/// A book's row, as `SELECT *` returns it.
pub open spec fn book_columns(b: BookView) -> Seq<ColumnView> {
    seq![
        ColumnView { name: "title"@, value: SqlValueView::Text(b.title) },
        ColumnView {
            name: "borrow_id"@,
            value: match b.borrow_id {
                Some(id) => SqlValueView::Text(id),
                None => SqlValueView::Null,
            },
        },
        ColumnView {
            name: "borrow_until"@,
            value: match b.borrow_until {
                Some(u) => SqlValueView::BigInt(u),
                None => SqlValueView::Null,
            },
        },
    ]
}

/// Whether a book can be lent at `now`: it is not lent, or its borrow ended before `now`.
pub open spec fn available(b: BookView, now: i64) -> bool {
    b.borrow_until is None || b.borrow_until->0 < now
}

/// `SELECT * FROM book WHERE title=$1`.
pub open spec fn select_book(t: BookTable, title: Seq<char>) -> DbEventView {
    if t.contains_key(title) {
        DbEventView::Fetched(Some(book_columns(t[title])))
    } else {
        DbEventView::Fetched(None)
    }
}

/// `SELECT EXISTS(SELECT 1 FROM book WHERE title=$1)`.
pub open spec fn select_exists(t: BookTable, title: Seq<char>) -> DbEventView {
    DbEventView::Fetched(Some(seq![ColumnView { name: "exists"@, value: SqlValueView::Bool(t.contains_key(title)) }]))
}

/// The book lent to `borrower` until `until`.
pub open spec fn lent(b: BookView, borrower: Seq<char>, until: i64) -> BookView {
    BookView { borrow_id: Some(borrower), borrow_until: Some(until), ..b }
}

/// The book back, lent to nobody.
pub open spec fn returned(b: BookView) -> BookView {
    BookView { borrow_id: None, borrow_until: None, ..b }
}

/// `UPDATE book SET borrow_until=$1, borrow_id=$2 WHERE title=$3 AND
/// (borrow_until IS NULL OR borrow_until < $4)`.
pub open spec fn update_borrow(t: BookTable, title: Seq<char>, borrower: Seq<char>, until: i64, now: i64) -> (BookTable, DbEventView) {
    if t.contains_key(title) && available(t[title], now) {
        (t.insert(title, lent(t[title], borrower, until)), DbEventView::Executed(1))
    } else {
        (t, DbEventView::Executed(0))
    }
}

/// `SELECT borrow_id FROM book WHERE title=$1`.
pub open spec fn select_borrower(t: BookTable, title: Seq<char>) -> DbEventView {
    if t.contains_key(title) {
        DbEventView::Fetched(Some(seq![ColumnView {
            name: "borrow_id"@,
            value: match t[title].borrow_id {
                Some(id) => SqlValueView::Text(id),
                None => SqlValueView::Null,
            },
        }]))
    } else {
        DbEventView::Fetched(None)
    }
}

/// `UPDATE book SET borrow_id = NULL, borrow_until = NULL WHERE title=$1`.
pub open spec fn update_end_borrow(t: BookTable, title: Seq<char>) -> (BookTable, DbEventView) {
    if t.contains_key(title) {
        (t.insert(title, returned(t[title])), DbEventView::Executed(1))
    } else {
        (t, DbEventView::Executed(0))
    }
}

/// `INSERT INTO book (title) VALUES ($1) RETURNING *`, for a title not yet in the table.
pub open spec fn insert_book(t: BookTable, title: Seq<char>) -> (BookTable, DbEventView) {
    let b = BookView { title, borrow_id: None, borrow_until: None };
    (t.insert(title, b), DbEventView::Fetched(Some(book_columns(b))))
}


// ---------------------------------------------------------------------------
// The database running the statements that the handlers issue. Each reading
// takes the statement as issued: its SQL, how it is fetched and its
// parameters; a statement other than the one expected at that point gets a
// failure.

/// The text of a statement's only parameter, when it has exactly one and it is a text.
pub open spec fn sole_text(st: StatementView) -> Option<Seq<char>> {
    if st.params.len() == 1 {
        match st.params[0] {
            SqlValueView::Text(x) => Some(x),
            _ => None,
        }
    } else {
        None
    }
}

/// The failure of a statement that the database was not expected to get.
pub open spec fn unexpected() -> DbEventView {
    DbEventView::Failed(DbErrorView::Database("unexpected statement"@))
}

/// The database runs a statement that should look a book up by its title.
pub open spec fn run_lookup(t: BookTable, st: StatementView) -> DbEventView {
    if st.sql == GET_BY_TITLE_SQL@ && st.fetch == Fetch::Optional && sole_text(st) is Some {
        select_book(t, sole_text(st)->0)
    } else {
        unexpected()
    }
}

/// The database runs a statement that should tell whether a book exists.
pub open spec fn run_exists(t: BookTable, st: StatementView) -> DbEventView {
    if st.sql == EXISTS_SQL@ && st.fetch == Fetch::One && sole_text(st) is Some {
        select_exists(t, sole_text(st)->0)
    } else {
        unexpected()
    }
}

/// The database runs a statement that should lend a book.
pub open spec fn run_borrow(t: BookTable, st: StatementView) -> (BookTable, DbEventView) {
    if st.sql == BORROW_SQL@ && st.fetch == Fetch::Execute && st.params.len() == 4 {
        match (st.params[0], st.params[1], st.params[2], st.params[3]) {
            (SqlValueView::BigInt(until), SqlValueView::Text(borrower), SqlValueView::Text(title), SqlValueView::BigInt(now)) =>
                update_borrow(t, title, borrower, until, now),
            _ => (t, unexpected()),
        }
    } else {
        (t, unexpected())
    }
}

/// The database runs a statement that should find a book's borrower.
pub open spec fn run_borrower(t: BookTable, st: StatementView) -> DbEventView {
    if st.sql == BORROWER_SQL@ && st.fetch == Fetch::Optional && sole_text(st) is Some {
        select_borrower(t, sole_text(st)->0)
    } else {
        unexpected()
    }
}

/// The database runs a statement that should end a book's borrow.
pub open spec fn run_end_borrow(t: BookTable, st: StatementView) -> (BookTable, DbEventView) {
    if st.sql == END_BORROW_SQL@ && st.fetch == Fetch::Execute && sole_text(st) is Some {
        update_end_borrow(t, sole_text(st)->0)
    } else {
        (t, unexpected())
    }
}

/// The database runs a statement that should insert a book; a second book
/// with the same title breaks the primary key, and the database refuses the
/// statement with `refusal`.
pub open spec fn run_insert(t: BookTable, st: StatementView, refusal: DbErrorView) -> (BookTable, DbEventView) {
    if st.sql == CREATE_SQL@ && st.fetch == Fetch::One && sole_text(st) is Some {
        if t.contains_key(sole_text(st)->0) {
            (t, DbEventView::Failed(refusal))
        } else {
            insert_book(t, sole_text(st)->0)
        }
    } else {
        (t, unexpected())
    }
}

/// The reply to the statement that finds the requester's access mask: the row
/// of the user holding the token, with its mask, or no row.
pub open spec fn mask_reply(mask: Option<i32>) -> DbEventView {
    DbEventView::Fetched(
        match mask {
            Some(m) => Some(seq![ColumnView { name: "access_mask"@, value: SqlValueView::Int(m) }]),
            None => None,
        },
    )
}

/// Looking a book up, against the table: the book kept under the requested
/// title, or `NotFound` when there is none.
pub proof fn lemma_lookup_against_table(t: BookTable, title: Seq<char>)
    ensures
        t.contains_key(title) ==> get_by_title_next(run_lookup(t, get_by_title_statement_view(title)))
            == answer_with(StatusCode::Success, t[title]),
        !t.contains_key(title) ==> get_by_title_next(run_lookup(t, get_by_title_statement_view(title)))
            == answer::<BookView>(StatusCode::NotFound),
        keyed_by_title(t) && t.contains_key(title) ==> t[title].title == title,
{
    if t.contains_key(title) {
        lemma_book_row_decodes(t[title]);
    }
}

proof fn lemma_column_names()
    ensures
        "title"@ != "borrow_id"@,
        "title"@ != "borrow_until"@,
        "borrow_id"@ != "borrow_until"@,
{
    reveal_strlit("title");
    reveal_strlit("borrow_id");
    reveal_strlit("borrow_until");
    assert("title"@.len() == 5);
    assert("borrow_id"@.len() == 9);
    assert("borrow_until"@.len() == 12);
}

/// A book's row reads back as the book.
pub proof fn lemma_book_row_decodes(b: BookView)
    ensures
        spec_from_row(book_columns(b)) == Ok::<BookView, DbErrorView>(b),
{
    lemma_column_names();
    let cols = book_columns(b);
    assert(cols.drop_first()[0].name == "borrow_id"@);
    assert(cols.drop_first().drop_first()[0].name == "borrow_until"@);
    assert(lookup(cols, "title"@) == Some(cols[0].value));
    assert(lookup(cols, "borrow_id"@) == Some(cols[1].value)) by {
        assert(lookup(cols.drop_first(), "borrow_id"@) == Some(cols.drop_first()[0].value));
    }
    assert(lookup(cols, "borrow_until"@) == Some(cols[2].value)) by {
        assert(lookup(cols.drop_first().drop_first(), "borrow_until"@) == Some(cols.drop_first().drop_first()[0].value));
        assert(lookup(cols.drop_first(), "borrow_until"@) == lookup(cols.drop_first().drop_first(), "borrow_until"@));
    }
}

/// The state of a borrow right after it started.
pub open spec fn lease_started(title: Seq<char>, borrower: Seq<char>, until: i64, now: i64) -> LeaseByTitleView {
    LeaseByTitleView { title, borrow_id: borrower, until, now, stage: LeaseStage::CheckExists }
}

/// A whole borrow against the table: its answer, and the table after it.
pub open spec fn borrow_run(t: BookTable, title: Seq<char>, borrower: Seq<char>, until: i64, now: i64) -> (ActionView<Seq<char>>, BookTable) {
    let s0 = lease_started(title, borrower, until, now);
    let (s1, a1) = lease_next(s0, run_exists(t, exists_statement_view(title)));
    match a1 {
        ActionView::Run(st) => {
            let (t2, reply) = run_borrow(t, st);
            (lease_next(s1, reply).1, t2)
        },
        _ => (a1, t),
    }
}

/// Borrowing: a missing book is `NotFound`; an available book is lent, until
/// the moment asked, to the borrower, with `Success`; a book lent until `now`
/// or later is refused with `Forbidden` and the reason, and stays as it was.
pub proof fn lemma_borrow_against_table(t: BookTable, title: Seq<char>, borrower: Seq<char>, until: i64, now: i64)
    ensures
        !t.contains_key(title) ==> borrow_run(t, title, borrower, until, now) == (answer::<Seq<char>>(StatusCode::NotFound), t),
        t.contains_key(title) && available(t[title], now) ==> borrow_run(t, title, borrower, until, now) == (
            answer::<Seq<char>>(StatusCode::Success),
            t.insert(title, lent(t[title], borrower, until)),
        ),
        t.contains_key(title) && !available(t[title], now) ==> borrow_run(t, title, borrower, until, now) == (
            answer_with(StatusCode::Forbidden, NOT_AVAILABLE@),
            t,
        ),
{
    let cols = seq![ColumnView { name: "exists"@, value: SqlValueView::Bool(t.contains_key(title)) }];
    assert(crate::sql::decode_bool_at(cols, 0) == Ok::<bool, DbErrorView>(t.contains_key(title)));
}

/// A lent book is not lent again while its borrow lasts: after a borrow until
/// `until` succeeded, any other borrow at a moment up to `until` is refused.
pub proof fn lemma_no_double_borrow(
    t: BookTable,
    title: Seq<char>,
    first: Seq<char>,
    until: i64,
    now: i64,
    second: Seq<char>,
    until2: i64,
    later: i64,
)
    requires
        t.contains_key(title),
        available(t[title], now),
        later <= until,
    ensures
        borrow_run(t, title, first, until, now).0 == answer::<Seq<char>>(StatusCode::Success),
        borrow_run(borrow_run(t, title, first, until, now).1, title, second, until2, later) == (
            answer_with(StatusCode::Forbidden, NOT_AVAILABLE@),
            borrow_run(t, title, first, until, now).1,
        ),
{
    lemma_borrow_against_table(t, title, first, until, now);
    let t1 = borrow_run(t, title, first, until, now).1;
    assert(t1[title] == lent(t[title], first, until));
    lemma_borrow_against_table(t1, title, second, until2, later);
}

/// The state of an end of borrow right after it started.
pub open spec fn end_started(title: Seq<char>, token: Seq<char>) -> EndLoanByTitleView {
    EndLoanByTitleView { title, access_token: token, stage: EndLoanStage::LookUpBorrower }
}

/// A whole end of borrow against the table, by the holder of `token`, whose
/// access mask (if a user holds the token) is `requester_mask`: its answer,
/// and the table after it.
pub open spec fn end_loan_run(t: BookTable, title: Seq<char>, token: Seq<char>, requester_mask: Option<i32>) -> (ActionView<()>, BookTable) {
    let s0 = end_started(title, token);
    let (s1, a1) = end_loan_next(s0, run_borrower(t, borrower_statement_view(title)));
    if s1.stage == EndLoanStage::EndBorrow {
        match a1 {
            ActionView::Run(st) => {
                let (t2, reply) = run_end_borrow(t, st);
                (end_loan_next(s1, reply).1, t2)
            },
            _ => (a1, t),
        }
    } else if s1.stage == EndLoanStage::CheckLibrarian {
        let (s2, a2) = end_loan_next(s1, mask_reply(requester_mask));
        match a2 {
            ActionView::Run(st) => {
                let (t3, reply) = run_end_borrow(t, st);
                (end_loan_next(s2, reply).1, t3)
            },
            _ => (a2, t),
        }
    } else {
        (a1, t)
    }
}

/// An end of borrow by the borrower against the table: its answer, and the table after it.
pub open spec fn end_by_borrower_run(t: BookTable, title: Seq<char>, token: Seq<char>) -> (ActionView<()>, BookTable) {
    end_loan_run(t, title, token, None)
}

/// Ending a borrow, start to end, against the table. A book that does not
/// exist is `NotFound`; one that is not lent needs nothing and is `Success`.
/// A lent book is returned, with `Success`, when the requester's token is its
/// borrower, or when the requester's access mask grants the librarian level,
/// as an admin's does; anyone else is `Forbidden` and the book stays lent.
pub proof fn lemma_end_loan_against_table(t: BookTable, title: Seq<char>, token: Seq<char>, requester_mask: Option<i32>)
    ensures
        ({
            let run = end_loan_run(t, title, token, requester_mask);
            let back = t.insert(title, returned(t[title]));
            let librarian = requester_mask matches Some(m) && spec_grants(m, access_mask::LIBRARIAN);
            &&& !t.contains_key(title) ==> run == (answer::<()>(StatusCode::NotFound), t)
            &&& t.contains_key(title) && t[title].borrow_id is None ==> run == (answer::<()>(StatusCode::Success), t)
            &&& t.contains_key(title) && t[title].borrow_id == Some(token) ==> run == (
                answer::<()>(StatusCode::Success),
                back,
            )
            &&& t.contains_key(title) && (t[title].borrow_id matches Some(b) && b != token) && librarian ==> run == (
                answer::<()>(StatusCode::Success),
                back,
            )
            &&& t.contains_key(title) && (t[title].borrow_id matches Some(b) && b != token) && !librarian ==> run == (
                answer::<()>(StatusCode::Forbidden),
                t,
            )
            &&& t.contains_key(title) && t[title].borrow_id is Some && requester_mask == Some(access_mask::ADMIN)
                ==> run == (answer::<()>(StatusCode::Success), back)
        }),
{
    crate::entities::access_mask::lemma_levels_ordered();
    if t.contains_key(title) {
        let cols = seq![ColumnView {
            name: "borrow_id"@,
            value: match t[title].borrow_id {
                Some(id) => SqlValueView::Text(id),
                None => SqlValueView::Null,
            },
        }];
        assert(lookup(cols, "borrow_id"@) == Some(cols[0].value));
    }
    if let Some(m) = requester_mask {
        let row = seq![ColumnView { name: "access_mask"@, value: SqlValueView::Int(m) }];
        assert(lookup(row, "access_mask"@) == Some(row[0].value));
    }
}

/// The borrower ends its own borrow: `Success`, and the book is lent to
/// nobody; then any borrow of it succeeds.
pub proof fn lemma_borrower_returns(t: BookTable, title: Seq<char>, token: Seq<char>, other: Seq<char>, until: i64, now: i64)
    requires
        t.contains_key(title),
        t[title].borrow_id == Some(token),
    ensures
        end_by_borrower_run(t, title, token) == (answer::<()>(StatusCode::Success), t.insert(title, returned(t[title]))),
        borrow_run(end_by_borrower_run(t, title, token).1, title, other, until, now).0 == answer::<Seq<char>>(
            StatusCode::Success,
        ),
{
    let cols = seq![ColumnView { name: "borrow_id"@, value: SqlValueView::Text(token) }];
    assert(decode_opt_text(cols, "borrow_id"@) == Ok::<Option<Seq<char>>, DbErrorView>(Some(token)));
    let t1 = t.insert(title, returned(t[title]));
    assert(t1.contains_key(title) && available(t1[title], now));
    lemma_borrow_against_table(t1, title, other, until, now);
}

/// A book created by a librarian can be looked up by its title right after:
/// the creation answers `Created` with a book lent to nobody, and the lookup
/// `Success` with the same book.
pub proof fn lemma_created_book_is_found(t: BookTable, title: Seq<char>)
    requires
        !t.contains_key(title),
    ensures
        ({
            let s = CreateBookView { title, stage: CreateStage::Insert };
            let (t1, reply) = insert_book(t, title);
            let b = BookView { title, borrow_id: None, borrow_until: None };
            &&& create_next(s, reply).1 == answer_with(StatusCode::Created, b)
            &&& get_by_title_next(select_book(t1, title)) == answer_with(StatusCode::Success, b)
        }),
{
    lemma_book_row_decodes(BookView { title, borrow_id: None, borrow_until: None });
}

/// A whole creation of a book against the table, by a requester whose access
/// mask (if a user holds the token) is `requester_mask`: its answer, and the
/// table after it.
pub open spec fn create_run(t: BookTable, title: Seq<char>, requester_mask: Option<i32>, refusal: DbErrorView) -> (ActionView<BookView>, BookTable) {
    let s0 = CreateBookView { title, stage: CreateStage::CheckLibrarian };
    let (s1, a1) = create_next(s0, mask_reply(requester_mask));
    match a1 {
        ActionView::Run(st) => {
            let (t2, reply) = run_insert(t, st, refusal);
            (create_next(s1, reply).1, t2)
        },
        _ => (a1, t),
    }
}

/// Creating a book, start to end, against the table. A requester whose access
/// mask grants the librarian level creates a book with exactly the requested
/// title, lent to nobody: the answer is `Created` with it, the table keeps it
/// under that title, and a lookup of the title then answers it; a title that
/// is already taken is refused by the database and the table stays as it was.
/// Anyone else is `Forbidden`, and the table stays as it was.
pub proof fn lemma_book_creation_against_table(t: BookTable, title: Seq<char>, requester_mask: Option<i32>, refusal: DbErrorView)
    ensures
        ({
            let run = create_run(t, title, requester_mask, refusal);
            let b = BookView { title, borrow_id: None, borrow_until: None };
            let librarian = requester_mask matches Some(m) && spec_grants(m, access_mask::LIBRARIAN);
            &&& librarian && !t.contains_key(title) ==> {
                &&& run == (answer_with(StatusCode::Created, b), t.insert(title, b))
                &&& run.1[title].title == title
                &&& get_by_title_next(run_lookup(run.1, get_by_title_statement_view(title))) == answer_with(
                    StatusCode::Success,
                    b,
                )
            }
            &&& librarian && t.contains_key(title) ==> run == (failure::<BookView>(refusal), t)
            &&& !librarian ==> run == (answer::<BookView>(StatusCode::Forbidden), t)
        }),
{
    let b = BookView { title, borrow_id: None, borrow_until: None };
    lemma_book_row_decodes(b);
    if let Some(m) = requester_mask {
        let row = seq![ColumnView { name: "access_mask"@, value: SqlValueView::Int(m) }];
        assert(lookup(row, "access_mask"@) == Some(row[0].value));
    }
    let t1 = t.insert(title, b);
    assert(t1[title] == b);
    lemma_lookup_against_table(t1, title);
}

// ---------------------------------------------------------------------------
// Listing.

/// A book's row, as the listings select it: its title and the end of its borrow.
pub open spec fn public_columns(b: BookView) -> Seq<ColumnView> {
    seq![
        ColumnView { name: "title"@, value: SqlValueView::Text(b.title) },
        ColumnView {
            name: "borrow_until"@,
            value: match b.borrow_until {
                Some(u) => SqlValueView::BigInt(u),
                None => SqlValueView::Null,
            },
        },
    ]
}

/// A book as the public sees it.
pub open spec fn public_of(b: BookView) -> BookPublicView {
    BookPublicView { title: b.title, borrow_until: b.borrow_until }
}

/// A character with its ASCII upper-case letter folded to lower case.
pub open spec fn fold(c: char) -> char {
    if 'A' <= c && c <= 'Z' {
        ((c as u32) + 32) as char
    } else {
        c
    }
}

/// The query occurs in the title at `i`, regardless of case.
pub open spec fn matches_at(title: Seq<char>, q: Seq<char>, i: int) -> bool {
    0 <= i && i + q.len() <= title.len() && forall|k: int| 0 <= k < q.len() ==> fold(#[trigger] title[i + k]) == fold(q[k])
}

/// `title ILIKE CONCAT('%',$1,'%')`: the query occurs in the title, regardless
/// of case. This reading holds for a query without the pattern characters
/// `%`, `_` and `\`, and folds case as the ASCII letters do.
pub open spec fn title_matches(title: Seq<char>, q: Seq<char>) -> bool {
    exists|i: int| #[trigger] matches_at(title, q, i)
}

/// A query without the characters that `ILIKE` reads as a pattern.
pub open spec fn plain_query(q: Seq<char>) -> bool {
    forall|k: int| 0 <= k < q.len() ==> #[trigger] q[k] != '%' && q[k] != '_' && q[k] != '\\'
}

/// Whether a listing with this query selects the title: every title without a
/// query, the matching ones with one.
pub open spec fn selected(q: Option<Seq<char>>, title: Seq<char>) -> bool {
    match q {
        None => true,
        Some(q) => title_matches(title, q),
    }
}

/// `titles` lists the selected books of the table, each once, in the order in
/// which the database returns them (the statement fixes no order).
pub open spec fn lists(t: BookTable, q: Option<Seq<char>>, titles: Seq<Seq<char>>) -> bool {
    &&& titles.no_duplicates()
    &&& forall|ti: Seq<char>| #[trigger] titles.contains(ti) <==> (t.contains_key(ti) && selected(q, ti))
}

/// The reply to a listing statement: the rows of the listed books.
pub open spec fn select_listed(t: BookTable, titles: Seq<Seq<char>>) -> DbEventView {
    DbEventView::FetchedAll(titles.map_values(|ti: Seq<char>| public_columns(t[ti])))
}

/// A listing row reads back as the book as the public sees it.
pub proof fn lemma_public_row_decodes(b: BookView)
    ensures
        spec_public_from_row(public_columns(b)) == Ok::<BookPublicView, DbErrorView>(public_of(b)),
{
    lemma_column_names();
    let cols = public_columns(b);
    assert(lookup(cols, "title"@) == Some(cols[0].value));
    assert(lookup(cols, "borrow_until"@) == Some(cols[1].value)) by {
        assert(cols.drop_first()[0].name == "borrow_until"@);
        assert(lookup(cols.drop_first(), "borrow_until"@) == Some(cols.drop_first()[0].value));
    }
}

proof fn lemma_listed_rows_decode(t: BookTable, titles: Seq<Seq<char>>)
    ensures
        spec_public_from_rows(titles.map_values(|ti: Seq<char>| public_columns(t[ti]))) == Ok::<
            Seq<BookPublicView>,
            DbErrorView,
        >(titles.map_values(|ti: Seq<char>| public_of(t[ti]))),
    decreases titles.len(),
{
    let rows = titles.map_values(|ti: Seq<char>| public_columns(t[ti]));
    if titles.len() > 0 {
        let init = titles.drop_last();
        lemma_listed_rows_decode(t, init);
        assert(rows.drop_last() =~= init.map_values(|ti: Seq<char>| public_columns(t[ti])));
        lemma_public_row_decodes(t[titles.last()]);
        assert(titles.map_values(|ti: Seq<char>| public_of(t[ti])) =~= init.map_values(
            |ti: Seq<char>| public_of(t[ti]),
        ).push(public_of(t[titles.last()])));
    } else {
        assert(rows =~= Seq::<Seq<ColumnView>>::empty());
        assert(titles.map_values(|ti: Seq<char>| public_of(t[ti])) =~= Seq::<BookPublicView>::empty());
    }
}

/// A listing answers `Success` with exactly the selected books of the table:
/// every book answered is in the table, is selected by the query and carries
/// the end of its borrow; every selected book is answered, once.
pub proof fn lemma_listing_answers_matching_books(t: BookTable, q: Option<Seq<char>>, titles: Seq<Seq<char>>)
    requires
        keyed_by_title(t),
        lists(t, q, titles),
        q matches Some(query) ==> plain_query(query),
    ensures
        public_list_next(select_listed(t, titles)) == answer_with(
            StatusCode::Success,
            titles.map_values(|ti: Seq<char>| public_of(t[ti])),
        ),
        ({
            let books = titles.map_values(|ti: Seq<char>| public_of(t[ti]));
            &&& forall|k: int|
                0 <= k < books.len() ==> t.contains_key(#[trigger] books[k].title) && selected(q, books[k].title)
                    && books[k].borrow_until == t[books[k].title].borrow_until
            &&& forall|ti: Seq<char>|
                t.contains_key(ti) && selected(q, ti) ==> exists|k: int| 0 <= k < books.len() && #[trigger] books[k].title == ti
            &&& forall|k: int, m: int| 0 <= k < m < books.len() ==> books[k].title != books[m].title
        }),
{
    lemma_listed_rows_decode(t, titles);
    let books = titles.map_values(|ti: Seq<char>| public_of(t[ti]));
    assert forall|k: int| 0 <= k < books.len() implies t.contains_key(#[trigger] books[k].title) && selected(
        q,
        books[k].title,
    ) && books[k].borrow_until == t[books[k].title].borrow_until by {
        assert(titles.contains(titles[k]));
        assert(books[k].title == titles[k]);
    }
    assert forall|ti: Seq<char>| t.contains_key(ti) && selected(q, ti) implies exists|k: int|
        0 <= k < books.len() && #[trigger] books[k].title == ti by {
        assert(titles.contains(ti));
        let k = choose|k: int| 0 <= k < titles.len() && titles[k] == ti;
        assert(t.contains_key(titles[k]));
        assert(books[k].title == ti);
    }
    assert forall|k: int, m: int| 0 <= k < m < books.len() implies books[k].title != books[m].title by {
        assert(titles.contains(titles[k]));
        assert(titles.contains(titles[m]));
        assert(books[k].title == titles[k]);
        assert(books[m].title == titles[m]);
    }
}

/// The replies the database may give a listing statement: the rows of the
/// books it selects, each once, in an order it chooses.
pub open spec fn list_replies(t: BookTable, st: StatementView, reply: DbEventView) -> bool {
    ||| (st.sql == LIST_ALL_SQL@ && st.fetch == Fetch::All && st.params.len() == 0 && exists|titles: Seq<Seq<char>>|
        #[trigger] lists(t, None, titles) && reply == select_listed(t, titles))
    ||| (st.sql == LIST_MATCHING_SQL@ && st.fetch == Fetch::All && sole_text(st) is Some && exists|
        titles: Seq<Seq<char>>,
    | #[trigger] lists(t, Some(sole_text(st)->0), titles) && reply == select_listed(t, titles))
}

/// Listing, from the statement a listing issues to its answer, against the
/// table: whatever order the database gives, the answer is `Success` with
/// exactly the books whose title matches the query (every book without one),
/// each once and with the end of its borrow.
pub proof fn lemma_listing_statement_against_table(t: BookTable, q: Option<Seq<char>>, reply: DbEventView)
    requires
        keyed_by_title(t),
        q matches Some(query) ==> plain_query(query),
        list_replies(t, list_statement_view(q), reply),
    ensures
        public_list_next(reply) matches ActionView::Reply(Ok((StatusCode::Success, Some(books)))) && {
            &&& forall|k: int|
                0 <= k < books.len() ==> t.contains_key(#[trigger] books[k].title) && selected(q, books[k].title)
                    && books[k].borrow_until == t[books[k].title].borrow_until
            &&& forall|ti: Seq<char>|
                t.contains_key(ti) && selected(q, ti) ==> exists|k: int| 0 <= k < books.len() && #[trigger] books[k].title == ti
            &&& forall|k: int, m: int| 0 <= k < m < books.len() ==> books[k].title != books[m].title
        },
{
    let st = list_statement_view(q);
    let titles = choose|titles: Seq<Seq<char>>| #[trigger] lists(t, q, titles) && reply == select_listed(t, titles);
    match q {
        Some(x) => {
            assert(sole_text(st) == Some(x));
            assert(exists|titles: Seq<Seq<char>>| #[trigger] lists(t, q, titles) && reply == select_listed(t, titles));
        },
        None => {
            assert(exists|titles: Seq<Seq<char>>| #[trigger] lists(t, q, titles) && reply == select_listed(t, titles));
        },
    }
    lemma_listing_answers_matching_books(t, q, titles);
}

} // verus!
