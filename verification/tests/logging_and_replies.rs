use library::entities::{
    BookBorrowByTitlePayload, BookCreatePayload, BookEndBorrowByTitlePayload, BookGetByTitlePayload,
    BookPublicListPayload, UserCreatePayload,
};
use library::http::StatusCode;
use library::logging::{debug_i64, debug_str, logged, Loggable};
use library::server::actor::{actor_reply, respond, Received, REPLY_TIMEOUT_SECS};
use library::server::messages::{BookRequest, UserRequest};
use library::server::resources::ResponseData;
use library::sql::{find_column, get_bool_at, get_opt_text, get_text, Column, DbError, DbEvent, Row, SqlValue};
use library::standalone::entities::Book;
use library::standalone::resources::book::{
    actor_reply as standalone_reply, fetch_one_by_title, fetch_one_by_title_statement, get, FETCH_BY_TITLE_SQL,
};

#[test]
fn payloads_are_logged_in_the_pretty_debug_layout() {
    let p = BookGetByTitlePayload { title: "Rapunzel".to_string() };
    assert_eq!(p.to_log(), format!("{:#?}", p));
    let p = BookBorrowByTitlePayload { title: "Cin\"de\nrella".to_string(), borrow_length: -86400, borrow_id: "é".to_string() };
    assert_eq!(p.to_log(), format!("{:#?}", p));
    let p = BookEndBorrowByTitlePayload { title: "T".to_string(), access_token: "t\\k".to_string() };
    assert_eq!(p.to_log(), format!("{:#?}", p));
    let p = BookCreatePayload { title: "TEST".to_string(), access_token: "x".to_string() };
    assert_eq!(p.to_log(), format!("{:#?}", p));
    let p = BookPublicListPayload { query: None };
    assert_eq!(p.to_log(), format!("{:#?}", p));
    let p = BookPublicListPayload { query: Some("Cin".to_string()) };
    assert_eq!(p.to_log(), format!("{:#?}", p));
    let p = UserCreatePayload { email: "a@b".to_string(), access_mask: 0x011, requester_access_token: Some("tok".to_string()) };
    assert_eq!(p.to_log(), format!("{:#?}", p));
    let p = UserCreatePayload { email: "a@b".to_string(), access_mask: i32::MIN, requester_access_token: None };
    assert_eq!(p.to_log(), format!("{:#?}", p));
}

#[test]
fn requests_are_logged_as_their_payloads() {
    let r = BookRequest::GetByTitle(BookGetByTitlePayload { title: "Rapunzel".to_string() });
    assert_eq!(r.to_log(), "BookGetByTitlePayload {\n    title: \"Rapunzel\",\n}");
    let (r, line) = logged(r);
    assert_eq!(line, "BookGetByTitlePayload {\n    title: \"Rapunzel\",\n}");
    assert!(matches!(r, BookRequest::GetByTitle(p) if p.title == "Rapunzel"));
    let u = UserRequest::Creation(UserCreatePayload { email: "e".to_string(), access_mask: 1, requester_access_token: None });
    assert_eq!(
        u.to_log(),
        "UserCreatePayload {\n    email: \"e\",\n    access_mask: 1,\n    requester_access_token: None,\n}"
    );
}

#[test]
fn debug_pieces() {
    assert_eq!(debug_str("a\"b"), "\"a\\\"b\"");
    assert_eq!(debug_i64(i64::MIN), i64::MIN.to_string());
    assert_eq!(debug_i64(-5), "-5");
    assert_eq!(debug_i64(0), "0");
}

#[test]
fn answers_travel_back_to_the_client() {
    let a = actor_reply::<String>(Ok(ResponseData(StatusCode::Forbidden, Some("no".to_string()))));
    let r = respond(Received::Message(a));
    assert_eq!(r.0, StatusCode::Forbidden);
    assert_eq!(r.1.as_deref(), Some("no"));
    let a = actor_reply::<String>(Err(DbError::RowNotFound));
    assert!(a.is_none());
    let r = respond(Received::Message(a));
    assert_eq!((r.0, r.1), (StatusCode::NotFound, None));
    let r = respond::<()>(Received::Disconnected);
    assert_eq!(r.0, StatusCode::InternalServerError);
    let r = respond::<()>(Received::TimedOut);
    assert_eq!(r.0, StatusCode::RequestTimeout);
    assert_eq!(StatusCode::RequestTimeout.code(), 408);
    assert_eq!(REPLY_TIMEOUT_SECS, 3);
}

fn col(name: &str, value: SqlValue) -> Column {
    Column { name: name.to_string(), value }
}

#[test]
fn single_route_lookup() {
    let st = fetch_one_by_title_statement(&"Rapunzel".to_string());
    assert_eq!(st.sql, FETCH_BY_TITLE_SQL);
    let row = Row { columns: vec![col("id", SqlValue::Int(2)), col("title", SqlValue::Text("Rapunzel".to_string()))] };
    let found = fetch_one_by_title(DbEvent::Fetched(Some(row))).ok().unwrap().unwrap();
    assert_eq!((found.id, found.title.as_str()), (2, "Rapunzel"));
    assert!(fetch_one_by_title(DbEvent::Fetched(None)).ok().unwrap().is_none());
    let bad = Row { columns: vec![col("id", SqlValue::BigInt(2))] };
    assert!(matches!(fetch_one_by_title(DbEvent::Fetched(Some(bad))), Err(DbError::ColumnDecode(_))));
    assert!(standalone_reply(Err(DbError::RowNotFound)).is_none());
    let b = standalone_reply(Ok(Some(Book { id: 1, title: "x".to_string() }))).unwrap();
    let (status, body) = get(Received::Message(Some(b)));
    assert_eq!(status, StatusCode::Success);
    assert_eq!(body.unwrap().id, 1);
    assert_eq!(get(Received::Message(None)).0, StatusCode::NotFound);
    assert_eq!(get(Received::Disconnected).0, StatusCode::InternalServerError);
    assert_eq!(get(Received::TimedOut).0, StatusCode::RequestTimeout);
}

#[test]
fn columns_are_found_by_their_first_name() {
    let row = Row {
        columns: vec![
            col("a", SqlValue::Text("first".to_string())),
            col("a", SqlValue::Text("second".to_string())),
            col("b", SqlValue::Null),
        ],
    };
    assert_eq!(find_column(&row, "a"), Some(0));
    assert_eq!(find_column(&row, "b"), Some(2));
    assert_eq!(find_column(&row, "c"), None);
    assert_eq!(get_text(&row, "a").ok().unwrap(), "first");
    assert!(get_opt_text(&row, "b").ok().unwrap().is_none());
    assert!(matches!(get_text(&row, "b"), Err(DbError::ColumnDecode(_))));
    assert!(matches!(get_bool_at(&row, 9), Err(DbError::ColumnIndexOutOfBounds(9))));
}

#[test]
fn login_requests_log_their_payload() {
    let p = library::entities::UserLoginPayload { email: "simple@user.com".to_string() };
    assert_eq!(p.to_log(), format!("{:#?}", p));
    let expected = format!("{:#?}", p);
    let (r, line) = logged(UserRequest::Login(p));
    assert_eq!(line, expected);
    assert!(matches!(r, UserRequest::Login(_)));
}
