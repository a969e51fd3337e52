use library::entities::access_mask;
use library::entities::{
    BookBorrowByTitlePayload, BookCreatePayload, BookEndBorrowByTitlePayload, BookGetByTitlePayload,
    BookPublicListPayload,
};
use library::http::StatusCode;
use library::server::resources::book::{
    create, end_loan_by_title, get_by_title, lease_by_id, public_list_by_query, seed, seed_statement, CreateBook,
    CreateStage, EndLoanByTitle, EndLoanStage, GetByTitle, GetStage, LeaseByTitle, LeaseStage, ListStage,
    PublicList, BORROWER_SQL, BORROW_SQL, CREATE_SQL, END_BORROW_SQL, EXISTS_SQL, GET_BY_TITLE_SQL,
    LIST_ALL_SQL, LIST_MATCHING_SQL, NOT_AVAILABLE, SEED_SQL,
};
use library::server::resources::user::ACCESS_MASK_SQL;
use library::server::resources::{Action, ResponseData};
use library::sql::{Column, DbError, DbEvent, Fetch, Row, SqlValue, Statement};

fn col(name: &str, value: SqlValue) -> Column {
    Column { name: name.to_string(), value }
}

fn text(s: &str) -> SqlValue {
    SqlValue::Text(s.to_string())
}

fn book_row(title: &str, borrow_id: Option<&str>, until: Option<i64>) -> Row {
    Row {
        columns: vec![
            col("title", text(title)),
            col("borrow_id", borrow_id.map(text).unwrap_or(SqlValue::Null)),
            col("borrow_until", until.map(SqlValue::BigInt).unwrap_or(SqlValue::Null)),
        ],
    }
}

fn mask_row(mask: Option<i32>) -> Row {
    Row { columns: vec![col("access_mask", mask.map(SqlValue::Int).unwrap_or(SqlValue::Null))] }
}

fn statement<T>(a: &Action<T>) -> &Statement {
    match a {
        Action::Run(s) => s,
        Action::Reply(_) => panic!("expected a statement"),
    }
}

fn answer<T>(a: Action<T>) -> ResponseData<T> {
    match a {
        Action::Reply(Ok(r)) => r,
        _ => panic!("expected an answer"),
    }
}

fn texts(s: &Statement) -> Vec<String> {
    s.params
        .iter()
        .map(|p| match p {
            SqlValue::Text(t) => t.clone(),
            SqlValue::BigInt(n) => n.to_string(),
            SqlValue::Int(n) => n.to_string(),
            SqlValue::Bool(b) => b.to_string(),
            SqlValue::Null => "NULL".to_string(),
            SqlValue::TextArray(v) => v.join(","),
        })
        .collect()
}

#[test]
fn get_by_title_finds_the_book() {
    let (s, a) = GetByTitle::start(&BookGetByTitlePayload { title: "Rapunzel".to_string() });
    assert_eq!(s.stage, GetStage::Fetch);
    let st = statement(&a);
    assert_eq!(st.sql, GET_BY_TITLE_SQL);
    assert_eq!(st.fetch, Fetch::Optional);
    assert_eq!(texts(st), vec!["Rapunzel"]);
    let (s, a) = get_by_title(s, DbEvent::Fetched(Some(book_row("Rapunzel", Some("a@b.c"), Some(99)))));
    assert_eq!(s.stage, GetStage::Finished);
    let ResponseData(status, book) = answer(a);
    assert_eq!(status, StatusCode::Success);
    let book = book.unwrap();
    assert_eq!(book.title, "Rapunzel");
    assert_eq!(book.borrow_id.as_deref(), Some("a@b.c"));
    assert_eq!(book.borrow_until, Some(99));
}

#[test]
fn get_by_title_missing_book_is_not_found() {
    let (s, _) = GetByTitle::start(&BookGetByTitlePayload { title: "Nope".to_string() });
    let (_, a) = get_by_title(s, DbEvent::Fetched(None));
    let ResponseData(status, book) = answer(a);
    assert_eq!(status, StatusCode::NotFound);
    assert!(book.is_none());
}

#[test]
fn get_by_title_reports_a_bad_row() {
    let (s, _) = GetByTitle::start(&BookGetByTitlePayload { title: "X".to_string() });
    let row = Row { columns: vec![col("title", SqlValue::Int(3))] };
    let (_, a) = get_by_title(s, DbEvent::Fetched(Some(row)));
    match a {
        Action::Reply(Err(DbError::ColumnDecode(name))) => assert_eq!(name, "title"),
        _ => panic!("expected a decode error"),
    }
    let (s, _) = GetByTitle::start(&BookGetByTitlePayload { title: "X".to_string() });
    let row = Row { columns: vec![col("title", text("X"))] };
    let (_, a) = get_by_title(s, DbEvent::Fetched(Some(row)));
    match a {
        Action::Reply(Err(DbError::ColumnNotFound(name))) => assert_eq!(name, "borrow_id"),
        _ => panic!("expected a missing column"),
    }
}

#[test]
fn create_book_forbidden_for_plain_user() {
    let payload = BookCreatePayload { title: "TEST".to_string(), access_token: "normal@user.com".to_string() };
    let (s, a) = CreateBook::start(&payload);
    let st = statement(&a);
    assert_eq!(st.sql, ACCESS_MASK_SQL);
    assert_eq!(texts(st), vec!["normal@user.com"]);
    let (s, a) = create(s, DbEvent::Fetched(Some(mask_row(Some(access_mask::USER)))));
    assert_eq!(s.stage, CreateStage::Finished);
    let ResponseData(status, book) = answer(a);
    assert_eq!(status, StatusCode::Forbidden);
    assert!(book.is_none());
}

#[test]
fn create_book_forbidden_for_unknown_token() {
    let payload = BookCreatePayload { title: "TEST".to_string(), access_token: "who".to_string() };
    let (s, _) = CreateBook::start(&payload);
    let (_, a) = create(s, DbEvent::Fetched(None));
    assert_eq!(answer(a).0, StatusCode::Forbidden);
    let (s, _) = CreateBook::start(&payload);
    let (_, a) = create(s, DbEvent::Fetched(Some(mask_row(None))));
    assert_eq!(answer(a).0, StatusCode::Forbidden);
}

#[test]
fn create_book_by_librarian() {
    let payload = BookCreatePayload { title: "TEST".to_string(), access_token: "librarian@user.com".to_string() };
    let (s, _) = CreateBook::start(&payload);
    let (s, a) = create(s, DbEvent::Fetched(Some(mask_row(Some(access_mask::LIBRARIAN)))));
    assert_eq!(s.stage, CreateStage::Insert);
    let st = statement(&a);
    assert_eq!(st.sql, CREATE_SQL);
    assert_eq!(st.fetch, Fetch::One);
    assert_eq!(texts(st), vec!["TEST"]);
    let (_, a) = create(s, DbEvent::Fetched(Some(book_row("TEST", None, None))));
    let ResponseData(status, book) = answer(a);
    assert_eq!(status, StatusCode::Created);
    assert_eq!(book.unwrap().title, "TEST");
}

#[test]
fn create_book_by_admin_and_failure() {
    let payload = BookCreatePayload { title: "Cinderella".to_string(), access_token: "admin".to_string() };
    let (s, _) = CreateBook::start(&payload);
    let (s, _) = create(s, DbEvent::Fetched(Some(mask_row(Some(access_mask::ADMIN)))));
    assert_eq!(s.stage, CreateStage::Insert);
    let (_, a) = create(s, DbEvent::Failed(DbError::Database("duplicate key".to_string())));
    match a {
        Action::Reply(Err(DbError::Database(m))) => assert_eq!(m, "duplicate key"),
        _ => panic!("expected the failure"),
    }
}

fn borrow_payload() -> BookBorrowByTitlePayload {
    BookBorrowByTitlePayload {
        title: "Cinderella".to_string(),
        borrow_length: 86400,
        borrow_id: "simple@user.com".to_string(),
    }
}

#[test]
fn borrow_lends_until_now_plus_length() {
    let (s, a) = LeaseByTitle::start(&borrow_payload(), 1_000);
    assert_eq!(s.until, 87_400);
    let st = statement(&a);
    assert_eq!(st.sql, EXISTS_SQL);
    assert_eq!(st.fetch, Fetch::One);
    let exists = Row { columns: vec![col("exists", SqlValue::Bool(true))] };
    let (s, a) = lease_by_id(s, DbEvent::Fetched(Some(exists)));
    assert_eq!(s.stage, LeaseStage::Borrow);
    let st = statement(&a);
    assert_eq!(st.sql, BORROW_SQL);
    assert_eq!(st.fetch, Fetch::Execute);
    assert_eq!(texts(st), vec!["87400", "simple@user.com", "Cinderella", "1000"]);
    let (s, a) = lease_by_id(s, DbEvent::Executed(1));
    assert_eq!(s.stage, LeaseStage::Finished);
    let ResponseData(status, content) = answer(a);
    assert_eq!(status, StatusCode::Success);
    assert!(content.is_none());
}

#[test]
fn borrow_of_a_lent_book_is_forbidden() {
    let (s, _) = LeaseByTitle::start(&borrow_payload(), 5);
    let exists = Row { columns: vec![col("exists", SqlValue::Bool(true))] };
    let (s, _) = lease_by_id(s, DbEvent::Fetched(Some(exists)));
    let (_, a) = lease_by_id(s, DbEvent::Executed(0));
    let ResponseData(status, content) = answer(a);
    assert_eq!(status, StatusCode::Forbidden);
    assert_eq!(content.as_deref(), Some(NOT_AVAILABLE));
    assert_eq!(NOT_AVAILABLE, "This book is not available for borrowing");
}

#[test]
fn borrow_of_a_missing_book_is_not_found() {
    let (s, _) = LeaseByTitle::start(&borrow_payload(), 5);
    let exists = Row { columns: vec![col("exists", SqlValue::Bool(false))] };
    let (s, a) = lease_by_id(s, DbEvent::Fetched(Some(exists)));
    assert_eq!(s.stage, LeaseStage::Finished);
    assert_eq!(answer(a).0, StatusCode::NotFound);
}

#[test]
fn borrow_with_a_broken_reply() {
    let (s, _) = LeaseByTitle::start(&borrow_payload(), 5);
    let (_, a) = lease_by_id(s, DbEvent::Fetched(Some(Row { columns: vec![] })));
    match a {
        Action::Reply(Err(DbError::ColumnIndexOutOfBounds(0))) => {},
        _ => panic!("expected an index error"),
    }
    let (s, _) = LeaseByTitle::start(&borrow_payload(), 5);
    let (_, a) = lease_by_id(s, DbEvent::Failed(DbError::RowNotFound));
    assert!(matches!(a, Action::Reply(Err(DbError::RowNotFound))));
}

#[test]
fn borrow_at_the_largest_moment() {
    let mut p = borrow_payload();
    p.borrow_length = 0;
    let (s, _) = LeaseByTitle::start(&p, i64::MAX);
    assert_eq!(s.until, i64::MAX);
}

fn end_payload(token: &str) -> BookEndBorrowByTitlePayload {
    BookEndBorrowByTitlePayload { title: "Cinderella".to_string(), access_token: token.to_string() }
}

fn borrower_row(borrower: Option<&str>) -> Row {
    Row { columns: vec![col("borrow_id", borrower.map(text).unwrap_or(SqlValue::Null))] }
}

#[test]
fn borrower_ends_own_borrow() {
    let (s, a) = EndLoanByTitle::start(&end_payload("first@user.com"));
    let st = statement(&a);
    assert_eq!(st.sql, BORROWER_SQL);
    assert_eq!(texts(st), vec!["Cinderella"]);
    let (s, a) = end_loan_by_title(s, DbEvent::Fetched(Some(borrower_row(Some("first@user.com")))));
    assert_eq!(s.stage, EndLoanStage::EndBorrow);
    let st = statement(&a);
    assert_eq!(st.sql, END_BORROW_SQL);
    assert_eq!(st.fetch, Fetch::Execute);
    let (s, a) = end_loan_by_title(s, DbEvent::Executed(1));
    assert_eq!(s.stage, EndLoanStage::Finished);
    assert_eq!(answer(a).0, StatusCode::Success);
}

#[test]
fn another_user_cannot_end_the_borrow() {
    let (s, _) = EndLoanByTitle::start(&end_payload("second@user.com"));
    let (s, a) = end_loan_by_title(s, DbEvent::Fetched(Some(borrower_row(Some("first@user.com")))));
    assert_eq!(s.stage, EndLoanStage::CheckLibrarian);
    let st = statement(&a);
    assert_eq!(st.sql, ACCESS_MASK_SQL);
    assert_eq!(texts(st), vec!["second@user.com"]);
    let (s, a) = end_loan_by_title(s, DbEvent::Fetched(Some(mask_row(Some(access_mask::USER)))));
    assert_eq!(s.stage, EndLoanStage::Finished);
    assert_eq!(answer(a).0, StatusCode::Forbidden);
}

#[test]
fn librarian_ends_the_borrow_of_another() {
    let (s, _) = EndLoanByTitle::start(&end_payload("librarian@user.com"));
    let (s, _) = end_loan_by_title(s, DbEvent::Fetched(Some(borrower_row(Some("second@user.com")))));
    let (s, a) = end_loan_by_title(s, DbEvent::Fetched(Some(mask_row(Some(access_mask::LIBRARIAN)))));
    assert_eq!(s.stage, EndLoanStage::EndBorrow);
    assert_eq!(statement(&a).sql, END_BORROW_SQL);
    let (_, a) = end_loan_by_title(s, DbEvent::Executed(0));
    assert_eq!(answer(a).0, StatusCode::NotFound);
}

#[test]
fn ending_an_unlent_or_missing_book() {
    let (s, _) = EndLoanByTitle::start(&end_payload("x"));
    let (s, a) = end_loan_by_title(s, DbEvent::Fetched(Some(borrower_row(None))));
    assert_eq!(s.stage, EndLoanStage::Finished);
    assert_eq!(answer(a).0, StatusCode::Success);
    let (s, _) = EndLoanByTitle::start(&end_payload("x"));
    let (_, a) = end_loan_by_title(s, DbEvent::Fetched(None));
    assert_eq!(answer(a).0, StatusCode::NotFound);
}

#[test]
fn list_all_and_matching() {
    let (s, a) = PublicList::start(&BookPublicListPayload { query: None });
    assert_eq!(s.stage, ListStage::List);
    let st = statement(&a);
    assert_eq!(st.sql, LIST_ALL_SQL);
    assert!(st.params.is_empty());
    assert_eq!(st.fetch, Fetch::All);
    let rows = vec![
        Row { columns: vec![col("title", text("Cinderella")), col("borrow_until", SqlValue::Null)] },
        Row { columns: vec![col("title", text("Rapunzel")), col("borrow_until", SqlValue::BigInt(7))] },
    ];
    let (s, a) = public_list_by_query(s, DbEvent::FetchedAll(rows));
    assert_eq!(s.stage, ListStage::Finished);
    let ResponseData(status, books) = answer(a);
    assert_eq!(status, StatusCode::Success);
    let books = books.unwrap();
    assert_eq!(books.len(), 2);
    assert_eq!(books[0].title, "Cinderella");
    assert_eq!(books[0].borrow_until, None);
    assert_eq!(books[1].title, "Rapunzel");
    assert_eq!(books[1].borrow_until, Some(7));

    let (s, a) = PublicList::start(&BookPublicListPayload { query: Some("DOES_NOT_EXIST".to_string()) });
    let st = statement(&a);
    assert_eq!(st.sql, LIST_MATCHING_SQL);
    assert_eq!(texts(st), vec!["DOES_NOT_EXIST"]);
    let (_, a) = public_list_by_query(s, DbEvent::FetchedAll(vec![]));
    assert!(answer(a).1.unwrap().is_empty());
}

#[test]
fn list_stops_at_the_first_bad_row() {
    let (s, _) = PublicList::start(&BookPublicListPayload { query: None });
    let rows = vec![
        Row { columns: vec![col("title", text("A")), col("borrow_until", SqlValue::Null)] },
        Row { columns: vec![col("title", SqlValue::Null), col("borrow_until", SqlValue::Null)] },
        Row { columns: vec![col("borrow_until", SqlValue::Null)] },
    ];
    let (_, a) = public_list_by_query(s, DbEvent::FetchedAll(rows));
    match a {
        Action::Reply(Err(DbError::ColumnDecode(name))) => assert_eq!(name, "title"),
        _ => panic!("expected the second row's error"),
    }
}

#[test]
fn seeding_statement_and_rows() {
    let st = seed_statement();
    assert_eq!(st.sql, SEED_SQL);
    assert_eq!(texts(&st), vec!["Cinderella,Rapunzel,Snow White"]);
    let rows = vec![book_row("Cinderella", None, None), book_row("Rapunzel", None, None)];
    let books = seed(&rows).ok().unwrap();
    assert_eq!(books.len(), 2);
    assert_eq!(books[1].title, "Rapunzel");
}
