use library::test_utils::path::{absolute_path, executable_path, join_path, root_path, tests_lock_path};
use library::test_utils::port::{get_free_port, parse_u16, trim};
use library::test_utils::spawn::{kill_command, server_address, spawn_args, start_timeout_error};

#[test]
fn joining_paths() {
    assert_eq!(join_path("/a", "b"), "/a/b");
    assert_eq!(join_path("/a/", "b"), "/a/b");
    assert_eq!(join_path("", "b"), "b");
    assert_eq!(join_path("/a", "/b"), "/b");
    assert_eq!(join_path("/a", ""), "/a/");
}

#[test]
fn absolute_paths_are_cleaned() {
    assert_eq!(absolute_path("b/../c", "/a"), "/a/c");
    assert_eq!(absolute_path("/x//y/./z", "/ignored"), "/x/y/z");
    assert_eq!(absolute_path("..", "/"), "/");
    assert_eq!(absolute_path("", ""), ".");
    assert_eq!(absolute_path("../../x", "a"), "../x");
}

#[test]
fn repository_paths_from_the_server_directory() {
    assert_eq!(root_path("/repo/server"), "/repo");
    assert_eq!(executable_path("/repo/server"), "/repo/run.sh");
    assert_eq!(tests_lock_path("/repo/server"), "/repo/server/tests/.tests.lock");
    assert_eq!(root_path("/"), "/");
    assert_eq!(executable_path("/"), "/run.sh");
}

#[test]
fn trimming_whitespace() {
    assert_eq!(trim("  8080\n"), "8080");
    assert_eq!(trim("\u{3000}x y\t"), "x y");
    assert_eq!(trim(" \n "), "");
    assert_eq!(trim(""), "");
}

#[test]
fn reading_ports() {
    assert_eq!(get_free_port("34567\n"), Some(34567));
    assert_eq!(get_free_port(" 0 "), Some(0));
    assert_eq!(get_free_port("65535"), Some(65535));
    assert_eq!(get_free_port("65536"), None);
    assert_eq!(get_free_port("99999999999"), None);
    assert_eq!(get_free_port(""), None);
    assert_eq!(get_free_port("12a"), None);
    assert_eq!(parse_u16("+42"), Some(42));
    assert_eq!(parse_u16("+"), None);
    assert_eq!(parse_u16("-1"), None);
    for s in ["7", "+7", "007", "65535", "65536", "", "+", "1 2", "٣"] {
        assert_eq!(parse_u16(s), s.parse::<u16>().ok(), "{}", s);
    }
}

#[test]
fn test_server_commands() {
    assert_eq!(server_address(8080), "http://0.0.0.0:8080");
    assert_eq!(
        kill_command(42),
        "kill -- $(pstree -p -g 42 | head -n1 | awk '{ m=match($0, /library\\(([0-9]+)/, ms); if (m) { print ms[1] } }')"
    );
    let args = spawn_args("http://0.0.0.0:9", "abc", "/tmp/x", "/tmp/x/is_ready", "a@b::t", 9);
    assert_eq!(
        args,
        vec![
            "--listen", "http://0.0.0.0:9", "--instance", "abc", "--dir", "/tmp/x", "--signal-file",
            "/tmp/x/is_ready", "--admin-credentials-for-test", "a@b::t", "--port", "9", "test_server",
        ]
    );
    assert_eq!(start_timeout_error(), "Test server took more than 10 seconds to signal its start. Aborting.");
}

#[test]
fn absolute_paths_have_no_dot_segments() {
    assert_eq!(absolute_path("/a/b/../c/./d", "/x"), "/a/c/d");
    assert_eq!(absolute_path("x/", "/a/"), "/a/x");
    assert_eq!(absolute_path("./y/..", "/a//b"), "/a/b");
    assert_eq!(absolute_path("../../..", "/a"), "/");
}
