use library::entities::routes::{create_user, do_borrow, do_create, do_end_loan, get, list};
use library::entities::{BookBorrowByTitlePayload, BookCreatePayload, BookEndBorrowByTitlePayload, User};
use library::http::Method;
use library::server::messages::ActorGroups;
use library::server::migrations::{v1_create_book, v2_create_user, v3_create_lease, v4_auth};
use library::server::routes::{listen_address, routes, Endpoint};
use library::server::setup::{
    log_format, parse_admin_credentials, seeding, wait_for_database, DbProbe, LogFormat, WaitAction,
};
use library::server::resources::book::SEED_SQL;
use library::server::resources::user::CREATE_USER_SQL;
use library::standalone;

#[test]
fn waiting_for_the_database() {
    assert!(matches!(wait_for_database(0, true, DbProbe::Exists(true)), WaitAction::DropAndCreate));
    assert!(matches!(wait_for_database(0, true, DbProbe::Exists(false)), WaitAction::Create));
    assert!(matches!(wait_for_database(1, false, DbProbe::Exists(false)), WaitAction::Create));
    assert!(matches!(wait_for_database(2, false, DbProbe::Exists(true)), WaitAction::Proceed));
    assert!(matches!(wait_for_database(2, false, DbProbe::Unreachable), WaitAction::Retry));
    match wait_for_database(3, false, DbProbe::Unreachable) {
        WaitAction::GiveUp(m) => assert_eq!(m, "Failed to connect within 15 seconds (3 tries)"),
        _ => panic!("expected to give up"),
    }
}

#[test]
fn admin_credentials() {
    assert_eq!(parse_admin_credentials("admin@x::secret"), Some(("admin@x".to_string(), "secret".to_string())));
    assert_eq!(parse_admin_credentials("a::b::c"), Some(("a".to_string(), "b".to_string())));
    assert_eq!(parse_admin_credentials("a:::b"), Some(("a".to_string(), ":b".to_string())));
    assert_eq!(parse_admin_credentials("::"), Some((String::new(), String::new())));
    assert_eq!(parse_admin_credentials("nosep"), None);
    for (e, t) in [("e", "t"), ("x@y.z", "a:b"), ("", "tok")] {
        let s = format!("{}::{}", e, t);
        assert_eq!(parse_admin_credentials(&s), Some((e.to_string(), t.to_string())));
    }
}

#[test]
fn seeding_a_fresh_database() {
    assert!(seeding(false, &None).is_none());
    assert_eq!(seeding(true, &None).unwrap().sql, SEED_SQL);
    let st = seeding(true, &Some(("a".to_string(), "t".to_string()))).unwrap();
    assert_eq!(st.sql, CREATE_USER_SQL);
}

#[test]
fn log_formats() {
    assert_eq!(log_format(None), Ok(LogFormat::Detailed));
    assert_eq!(log_format(Some("test")), Ok(LogFormat::Test));
    assert_eq!(log_format(Some("json")), Err("Invalid logging format json".to_string()));
}

#[test]
fn the_route_table() {
    let table: Vec<(String, Method, Endpoint, bool)> =
        routes().into_iter().map(|r| (r.path, r.method, r.endpoint, r.guarded)).collect();
    let expected = vec![
        ("/book/:title", Method::Get, Endpoint::GetBook, false),
        ("/book", Method::Post, Endpoint::CreateBook, false),
        ("/books/:query", Method::Get, Endpoint::ListBooks, false),
        ("/books", Method::Get, Endpoint::ListBooks, false),
        ("/book/:title/borrow", Method::Post, Endpoint::BorrowBook, true),
        ("/book/:title/borrow", Method::Delete, Endpoint::EndBorrow, true),
        ("/session", Method::Post, Endpoint::Login, false),
        ("user", Method::Post, Endpoint::CreateUser, false),
    ];
    assert_eq!(table.len(), expected.len());
    for (got, want) in table.iter().zip(expected.iter()) {
        assert_eq!((got.0.as_str(), got.1, got.2, got.3), *want);
        assert_eq!(got.2.guarded(), got.3);
    }
    for i in 0..table.len() {
        for j in i + 1..table.len() {
            assert!(table[i].0 != table[j].0 || table[i].1 != table[j].1);
        }
    }
    assert_eq!(listen_address(None), "127.0.0.1:8080");
    assert_eq!(listen_address(Some("0.0.0.0:1")), "0.0.0.0:1");
}

#[test]
fn client_requests() {
    let p = BookBorrowByTitlePayload { title: "Cinderella".to_string(), borrow_length: 86400, borrow_id: "a@b".to_string() };
    let u = User { email: "a@b".to_string(), access_mask: 1, access_token: "a@b".to_string() };
    let r = do_borrow("http://h:1", Some(&u), "tok", &p);
    assert_eq!(r.method, Method::Post);
    assert_eq!(r.url, "http://h:1/book/Cinderella/borrow");
    assert_eq!(
        r.headers,
        vec![
            ("X-Auth".to_string(), "tok".to_string()),
            ("Content-Type".to_string(), "application/json".to_string()),
            ("From".to_string(), "a@b".to_string()),
        ]
    );
    assert_eq!(do_borrow("http://h:1", None, "INVALID_TOKEN", &p).headers.len(), 2);
    let e = BookEndBorrowByTitlePayload { title: "Cinderella".to_string(), access_token: "tok".to_string() };
    let r = do_end_loan("http://h:1", "a@b", &e);
    assert_eq!(r.method, Method::Delete);
    assert_eq!(r.url, "http://h:1/book/Cinderella/borrow");
    assert_eq!(r.headers[1], ("From".to_string(), "a@b".to_string()));
    let c = do_create("http://h:1", &BookCreatePayload { title: "T".to_string(), access_token: "k".to_string() });
    assert_eq!((c.method, c.url.as_str()), (Method::Post, "http://h:1/book"));
    assert_eq!(get("http://h:1", "Rapunzel").url, "http://h:1/book/Rapunzel");
    assert_eq!(list("http://h:1", None).url, "http://h:1/books");
    assert_eq!(list("http://h:1", Some("Cin")).url, "http://h:1/books/Cin");
    assert_eq!(create_user("http://h:1").url, "http://h:1/user");
}

#[test]
fn actor_groups_are_named_after_their_variants() {
    assert_eq!(ActorGroups::Input.as_ref(), "Input");
    assert_eq!(ActorGroups::Book.as_ref(), "Book");
    assert_eq!(ActorGroups::User.to_string(), "User");
    assert_eq!(standalone::messages::ActorGroups::Book.as_ref(), "Book");
    assert_eq!(standalone::messages::ActorGroups::Input.to_string(), "Input");
}

#[test]
fn migrations_add_each_column_and_constraint_once() {
    let all = [
        v1_create_book::migration(),
        v2_create_user::migration(),
        v3_create_lease::migration(),
        v4_auth::migration(),
    ];
    for name in ["book_pk", "user_pk", "book_fk", "access_token", "access_mask", "borrow_id", "borrow_until"] {
        let count: usize = all.iter().map(|m| m.matches(name).count()).sum();
        assert_eq!(count, if name == "borrow_id" { 2 } else { 1 }, "{}", name);
    }
    assert!(!v2_create_user::migration().contains("book_fk"));
    assert!(!v2_create_user::migration().contains("access_token"));
}

#[test]
fn migrations_create_the_schema() {
    let v1 = v1_create_book::migration();
    assert!(v1.contains("CREATE TABLE public.book ("));
    assert!(v1.contains("borrow_until bigint NULL,"));
    assert!(v2_create_user::migration().contains("access_mask int4 NULL DEFAULT 0,"));
    assert!(v3_create_lease::migration().contains("FOREIGN KEY (borrow_id)"));
    assert_eq!(v4_auth::migration(), "\n     ALTER TABLE public.\"user\" ADD access_token varchar(512) NULL;\n     ");
    assert!(standalone::migrations::v1_create_book::migration().contains("id serial NOT NULL,"));
    assert!(standalone::migrations::v2_create_user::migration().contains("access_level int4 NULL DEFAULT 0,"));
    assert!(standalone::migrations::v3_create_lease::migration().contains("REFERENCES public.\"user\"(id)"));
}
