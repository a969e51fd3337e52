// The stories of the service's integration tests, told against a small
// in-memory database that runs the statements the handlers issue.
use library::entities::access_mask;
use library::entities::{
    BookBorrowByTitlePayload, BookCreatePayload, BookEndBorrowByTitlePayload, BookGetByTitlePayload,
    BookBorrowByTitleRequestBody, BookPublicListPayload, UserCreatePayload, UserLoginPayload,
};
use library::http::StatusCode;
use library::server::auth::{auth_middleware, auth_verdict, extract_lease_book, AuthDecision};
use library::server::resources::book::{
    seed, seed_statement,
    create, end_loan_by_title, get_by_title, lease_by_id, public_list_by_query, CreateBook, EndLoanByTitle,
    GetByTitle, LeaseByTitle, PublicList, BORROWER_SQL, BORROW_SQL, CREATE_SQL, END_BORROW_SQL, EXISTS_SQL,
    GET_BY_TITLE_SQL, LIST_ALL_SQL, LIST_MATCHING_SQL,
};
use library::server::resources::user::{
    create_user, login, CreateUser, Login, ACCESS_MASK_SQL, ACCESS_TOKEN_SQL, CREATE_USER_SQL, LOGIN_SQL,
};
use library::server::resources::{Action, ResponseData};
use library::sql::{Column, DbError, DbEvent, Row, SqlValue, Statement};
use std::collections::BTreeMap;

#[derive(Default)]
struct Db {
    books: BTreeMap<String, (Option<String>, Option<i64>)>,
    users: BTreeMap<String, (i32, String)>,
}

fn col(name: &str, value: SqlValue) -> Column {
    Column { name: name.to_string(), value }
}

fn text_param(st: &Statement, i: usize) -> String {
    match &st.params[i] {
        SqlValue::Text(t) => t.clone(),
        _ => panic!("expected text"),
    }
}

fn big_param(st: &Statement, i: usize) -> i64 {
    match &st.params[i] {
        SqlValue::BigInt(n) => *n,
        _ => panic!("expected a big integer"),
    }
}

impl Db {
    fn book_row(&self, title: &str) -> Row {
        let (id, until) = &self.books[title];
        Row {
            columns: vec![
                col("title", SqlValue::Text(title.to_string())),
                col("borrow_id", id.clone().map(SqlValue::Text).unwrap_or(SqlValue::Null)),
                col("borrow_until", until.map(SqlValue::BigInt).unwrap_or(SqlValue::Null)),
            ],
        }
    }

    fn run(&mut self, st: &Statement) -> DbEvent {
        let sql = st.sql.as_str();
        if sql == GET_BY_TITLE_SQL {
            let t = text_param(st, 0);
            DbEvent::Fetched(self.books.contains_key(&t).then(|| self.book_row(&t)))
        } else if sql == CREATE_SQL {
            let t = text_param(st, 0);
            if self.books.contains_key(&t) {
                return DbEvent::Failed(DbError::Database("duplicate key".to_string()));
            }
            self.books.insert(t.clone(), (None, None));
            DbEvent::Fetched(Some(self.book_row(&t)))
        } else if sql == EXISTS_SQL {
            let t = text_param(st, 0);
            DbEvent::Fetched(Some(Row { columns: vec![col("exists", SqlValue::Bool(self.books.contains_key(&t)))] }))
        } else if sql == BORROW_SQL {
            let (until, who, t, now) = (big_param(st, 0), text_param(st, 1), text_param(st, 2), big_param(st, 3));
            match self.books.get_mut(&t) {
                Some(b) if b.1.map_or(true, |u| u < now) => {
                    *b = (Some(who), Some(until));
                    DbEvent::Executed(1)
                },
                _ => DbEvent::Executed(0),
            }
        } else if sql == BORROWER_SQL {
            let t = text_param(st, 0);
            DbEvent::Fetched(self.books.get(&t).map(|b| Row {
                columns: vec![col("borrow_id", b.0.clone().map(SqlValue::Text).unwrap_or(SqlValue::Null))],
            }))
        } else if sql == END_BORROW_SQL {
            let t = text_param(st, 0);
            match self.books.get_mut(&t) {
                Some(b) => {
                    *b = (None, None);
                    DbEvent::Executed(1)
                },
                None => DbEvent::Executed(0),
            }
        } else if sql == LIST_ALL_SQL || sql == LIST_MATCHING_SQL {
            let q = if sql == LIST_MATCHING_SQL { text_param(st, 0).to_lowercase() } else { String::new() };
            DbEvent::FetchedAll(
                self.books
                    .iter()
                    .filter(|(t, _)| t.to_lowercase().contains(&q))
                    .map(|(t, b)| Row {
                        columns: vec![
                            col("title", SqlValue::Text(t.clone())),
                            col("borrow_until", b.1.map(SqlValue::BigInt).unwrap_or(SqlValue::Null)),
                        ],
                    })
                    .collect(),
            )
        } else if sql == ACCESS_MASK_SQL {
            let token = text_param(st, 0);
            DbEvent::Fetched(self.users.values().find(|u| u.1 == token).map(|u| Row {
                columns: vec![col("access_mask", SqlValue::Int(u.0))],
            }))
        } else if sql == ACCESS_TOKEN_SQL {
            let (email, token) = (text_param(st, 0), text_param(st, 1));
            let ok = self.users.get(&email).map_or(false, |u| u.1 == token);
            DbEvent::Fetched(Some(Row { columns: vec![col("exists", SqlValue::Bool(ok))] }))
        } else if sql == CREATE_USER_SQL {
            let email = text_param(st, 0);
            let mask = match st.params[1] {
                SqlValue::Int(m) => m,
                _ => panic!("expected a mask"),
            };
            let token = text_param(st, 2);
            if self.users.contains_key(&email) {
                return DbEvent::Failed(DbError::Database("duplicate key value violates unique constraint \"user_pk\"".to_string()));
            }
            self.users.insert(email.clone(), (mask, token.clone()));
            DbEvent::Fetched(Some(Row {
                columns: vec![
                    col("email", SqlValue::Text(email)),
                    col("access_mask", SqlValue::Int(mask)),
                    col("access_token", SqlValue::Text(token)),
                ],
            }))
        } else if sql == LOGIN_SQL {
            let email = text_param(st, 0);
            DbEvent::Fetched(self.users.get(&email).map(|u| Row {
                columns: vec![
                    col("email", SqlValue::Text(email.clone())),
                    col("access_mask", SqlValue::Int(u.0)),
                    col("access_token", SqlValue::Text(u.1.clone())),
                ],
            }))
        } else {
            panic!("unknown statement {}", sql)
        }
    }

    fn drive<S, T>(&mut self, start: (S, Action<T>), step: impl Fn(S, DbEvent) -> (S, Action<T>)) -> ResponseData<T> {
        let (mut s, mut a) = start;
        loop {
            match a {
                Action::Reply(r) => return r.ok().expect("the handler failed"),
                Action::Run(st) => {
                    let e = self.run(&st);
                    let (s2, a2) = step(s, e);
                    s = s2;
                    a = a2;
                },
            }
        }
    }

    fn user(&mut self, email: &str, mask: i32, requester: Option<&str>) -> ResponseData<library::entities::User> {
        let p = UserCreatePayload {
            email: email.to_string(),
            access_mask: mask,
            requester_access_token: requester.map(|r| r.to_string()),
        };
        self.drive(CreateUser::start(&p), create_user)
    }

    fn create_book(&mut self, token: &str, title: &str) -> StatusCode {
        let p = BookCreatePayload { title: title.to_string(), access_token: token.to_string() };
        self.drive(CreateBook::start(&p), create).0
    }

    fn borrow(&mut self, title: &str, who: &str, length: i64, now: i64) -> ResponseData<String> {
        let p = BookBorrowByTitlePayload { title: title.to_string(), borrow_length: length, borrow_id: who.to_string() };
        self.drive(LeaseByTitle::start(&p, now), lease_by_id)
    }

    fn end_borrow(&mut self, title: &str, token: &str) -> StatusCode {
        let p = BookEndBorrowByTitlePayload { title: title.to_string(), access_token: token.to_string() };
        self.drive(EndLoanByTitle::start(&p), end_loan_by_title).0
    }

    /// A borrow through its guarded route: the token check, then the payload,
    /// then the handler.
    fn guarded_borrow(&mut self, from: Option<&str>, token: Option<&str>, title: &str, who: &str, now: i64) -> StatusCode {
        let verdict = self.auth(from, token);
        let body = BookBorrowByTitleRequestBody { borrow_length: WHOLE_DAY, borrow_id: who.to_string() };
        match extract_lease_book(verdict, &token.map(|t| t.to_string()), title.to_string(), body) {
            Ok(p) => self.drive(LeaseByTitle::start(&p, now), lease_by_id).0,
            Err(status) => status,
        }
    }

    fn log_in(&mut self, email: &str) -> ResponseData<library::entities::User> {
        self.drive(Login::start(&UserLoginPayload { email: email.to_string() }), login)
    }

    fn auth(&mut self, from: Option<&str>, token: Option<&str>) -> StatusCode {
        match auth_middleware(&from.map(|s| s.to_string()), &token.map(|s| s.to_string())) {
            AuthDecision::Respond(s) => s,
            AuthDecision::Check(st) => auth_verdict(self.run(&st)),
        }
    }
}

const ADMIN_TOKEN: &str = "admin-token";

fn with_admin() -> Db {
    let mut db = Db::default();
    db.users.insert("admin@user.com".to_string(), (access_mask::ADMIN, ADMIN_TOKEN.to_string()));
    db
}

const WHOLE_DAY: i64 = 86400;

#[test]
fn test_create_and_get() {
    let mut db = with_admin();
    let normal = db.user("normal@user.com", access_mask::USER, None);
    assert_eq!(normal.0, StatusCode::Created);
    let normal = normal.1.unwrap();
    // A normal user is not able to create books.
    assert_eq!(db.create_book(&normal.access_token, "TEST"), StatusCode::Forbidden);
    let librarian = db.user("librarian@user.com", access_mask::LIBRARIAN, Some(ADMIN_TOKEN)).1.unwrap();
    assert_eq!(db.create_book(&librarian.access_token, "TEST"), StatusCode::Created);
    let found = db.drive(GetByTitle::start(&BookGetByTitlePayload { title: "TEST".to_string() }), get_by_title);
    assert_eq!(found.0, StatusCode::Success);
    assert_eq!(found.1.unwrap().title, "TEST");
}

#[test]
fn story_librarian_only_by_admin() {
    let mut db = with_admin();
    assert_eq!(db.user("l1@user.com", access_mask::LIBRARIAN, None).0, StatusCode::Forbidden);
    let plain = db.user("plain@user.com", access_mask::USER, None).1.unwrap();
    assert_eq!(db.user("l2@user.com", access_mask::LIBRARIAN, Some(&plain.access_token)).0, StatusCode::Forbidden);
    assert_eq!(db.user("l3@user.com", access_mask::ADMIN, Some(ADMIN_TOKEN)).0, StatusCode::Created);
    assert!(!db.users.contains_key("l1@user.com"));
    assert!(!db.users.contains_key("l2@user.com"));
}

#[test]
fn test_borrow() {
    let mut db = with_admin();
    assert_eq!(db.create_book(ADMIN_TOKEN, "Cinderella"), StatusCode::Created);
    let first = db.user("simple@user.com", access_mask::USER, None).1.unwrap();
    // The route is protected against invalid tokens.
    assert_eq!(db.auth(Some(&first.email), Some("INVALID_TOKEN")), StatusCode::Forbidden);
    assert_eq!(db.auth(None, Some(&first.access_token)), StatusCode::Forbidden);
    assert_eq!(db.auth(Some(&first.email), Some(&first.access_token)), StatusCode::Success);
    assert_eq!(db.guarded_borrow(None, Some("INVALID_TOKEN"), "Cinderella", &first.email, 500), StatusCode::Forbidden);
    assert_eq!(
        db.guarded_borrow(Some(&first.email), Some("INVALID_TOKEN"), "Cinderella", &first.email, 500),
        StatusCode::Forbidden
    );
    assert_eq!(db.books["Cinderella"], (None, None));
    // Borrow a book for a whole day.
    assert_eq!(db.borrow("Cinderella", &first.email, WHOLE_DAY, 1000).0, StatusCode::Success);
    // The book is already borrowed, so the following does not work.
    let again = db.borrow("Cinderella", &first.email, WHOLE_DAY, 2000);
    assert_eq!(again.0, StatusCode::Forbidden);
    assert_eq!(again.1.as_deref(), Some("This book is not available for borrowing"));
    // Once the borrow is over, the book can be borrowed again.
    assert_eq!(db.borrow("Cinderella", &first.email, WHOLE_DAY, 1000 + WHOLE_DAY + 1).0, StatusCode::Success);
    assert_eq!(db.borrow("Nowhere", &first.email, WHOLE_DAY, 0).0, StatusCode::NotFound);
}

#[test]
fn test_end_borrow() {
    let mut db = with_admin();
    db.create_book(ADMIN_TOKEN, "Cinderella");
    let first = db.user("first@user.com", access_mask::USER, None).1.unwrap();
    let second = db.user("second@user.com", access_mask::USER, None).1.unwrap();
    assert_eq!(db.borrow("Cinderella", &first.email, WHOLE_DAY, 10).0, StatusCode::Success);
    // The second user cannot end the borrow on behalf of the first.
    assert_eq!(db.end_borrow("Cinderella", &second.access_token), StatusCode::Forbidden);
    assert_eq!(db.books["Cinderella"].0.as_deref(), Some("first@user.com"));
    // The first user can end it.
    assert_eq!(db.end_borrow("Cinderella", &first.access_token), StatusCode::Success);
    // Now the book is free and the second user can borrow it.
    assert_eq!(db.borrow("Cinderella", &second.email, WHOLE_DAY, 20).0, StatusCode::Success);
    // Librarians can end the borrow on behalf of others.
    let librarian = db.user("librarian@user.com", access_mask::LIBRARIAN, Some(ADMIN_TOKEN)).1.unwrap();
    assert_eq!(db.end_borrow("Cinderella", &librarian.access_token), StatusCode::Success);
    assert_eq!(db.books["Cinderella"], (None, None));
}

#[test]
fn test_list() {
    let mut db = with_admin();
    db.create_book(ADMIN_TOKEN, "Cinderella");
    let all = db.drive(PublicList::start(&BookPublicListPayload { query: None }), public_list_by_query);
    assert_eq!(all.1.unwrap().len(), 1);
    let some = db.drive(
        PublicList::start(&BookPublicListPayload { query: Some("Cinderella".to_string()) }),
        public_list_by_query,
    );
    let some = some.1.unwrap();
    assert_eq!(some.len(), 1);
    assert!(some[0].title.contains("Cinderella"));
    let none = db.drive(
        PublicList::start(&BookPublicListPayload { query: Some("DOES_NOT_EXIST".to_string()) }),
        public_list_by_query,
    );
    assert!(none.1.unwrap().is_empty());
}

#[test]
fn test_create_user() {
    let mut db = Db::default();
    let created = db.user("someone@user.com", access_mask::USER, None);
    assert_eq!(created.0, StatusCode::Created);
    let user = created.1.unwrap();
    assert_eq!(user.email, "someone@user.com");
    assert_eq!(user.access_mask, access_mask::USER);
    assert_eq!(user.access_token, "someone@user.com");
    // The new user's token passes the token check, and logging in hands it back.
    assert_eq!(db.auth(Some(&user.email), Some(&user.access_token)), StatusCode::Success);
    let session = db.log_in("someone@user.com");
    assert_eq!(session.0, StatusCode::Success);
    assert_eq!(session.1.unwrap().access_token, "someone@user.com");
    assert_eq!(db.log_in("nobody@user.com").0, StatusCode::NotFound);
}

#[test]
fn story_second_user_with_the_same_email_is_refused() {
    let mut db = Db::default();
    db.user("someone@user.com", access_mask::USER, None);
    let p = UserCreatePayload { email: "someone@user.com".to_string(), access_mask: access_mask::USER, requester_access_token: None };
    let (s, a) = CreateUser::start(&p);
    let st = match a {
        Action::Run(st) => st,
        Action::Reply(_) => panic!("expected a statement"),
    };
    let (_, a) = create_user(s, db.run(&st));
    assert!(matches!(a, Action::Reply(Err(DbError::Database(_)))));
    assert_eq!(db.users.len(), 1);
    assert_eq!(db.users["someone@user.com"], (access_mask::USER, "someone@user.com".to_string()));
}

#[test]
fn my_test() {
    // A seeded database has Rapunzel, and the book route finds it.
    let mut db = Db::default();
    let st = seed_statement();
    match &st.params[0] {
        SqlValue::TextArray(titles) => {
            for t in titles {
                db.books.insert(t.clone(), (None, None));
            }
        },
        _ => panic!("expected the titles"),
    }
    let rows: Vec<Row> = ["Cinderella", "Rapunzel", "Snow White"].iter().map(|t| db.book_row(t)).collect();
    assert_eq!(seed(&rows).ok().unwrap().len(), 3);
    let found = db.drive(GetByTitle::start(&BookGetByTitlePayload { title: "Rapunzel".to_string() }), get_by_title);
    assert_eq!(found.0, StatusCode::Success);
    assert_eq!(found.1.unwrap().title, "Rapunzel");
}
