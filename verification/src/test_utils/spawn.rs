//! Starting a test server through the repository's script, and stopping the
//! whole tree of processes that the script started.
use vstd::prelude::*;
use crate::text::{decimal, decimal_string};

verus! {

/// How long a test waits for the server to signal its start, in seconds.
pub const START_TIMEOUT_SECS: u64 = 10;

pub const SERVER_ADDRESS_PREFIX: &'static str = "http://0.0.0.0:";

/// The address a test server listens on.
pub fn server_address(port: u16) -> (r: String)
    ensures
        r@ == SERVER_ADDRESS_PREFIX@ + decimal(port as nat),
{
    let mut r = SERVER_ADDRESS_PREFIX.to_owned();
    let p = decimal_string(port as u64);
    r.append(p.as_str());
    r
}

pub open spec fn strings_view(v: Seq<String>) -> Seq<Seq<char>> {
    v.map_values(|s: String| s@)
}

/// The arguments of the script that starts a test server.
pub open spec fn spec_spawn_args(
    server_addr: Seq<char>,
    instance: Seq<char>,
    app_dir: Seq<char>,
    signal_file: Seq<char>,
    admin_credentials: Seq<char>,
    port: u16,
) -> Seq<Seq<char>> {
    seq![
        "--listen"@, server_addr,
        "--instance"@, instance,
        "--dir"@, app_dir,
        "--signal-file"@, signal_file,
        "--admin-credentials-for-test"@, admin_credentials,
        "--port"@, decimal(port as nat),
        "test_server"@,
    ]
}

pub fn spawn_args(
    server_addr: &str,
    instance: &str,
    app_dir: &str,
    signal_file: &str,
    admin_credentials: &str,
    port: u16,
) -> (r: Vec<String>)
    ensures
        strings_view(r@) == spec_spawn_args(server_addr@, instance@, app_dir@, signal_file@, admin_credentials@, port),
{
    let r = vec![
        "--listen".to_owned(), server_addr.to_owned(),
        "--instance".to_owned(), instance.to_owned(),
        "--dir".to_owned(), app_dir.to_owned(),
        "--signal-file".to_owned(), signal_file.to_owned(),
        "--admin-credentials-for-test".to_owned(), admin_credentials.to_owned(),
        "--port".to_owned(), decimal_string(port as u64),
        "test_server".to_owned(),
    ];
    assert(strings_view(r@) =~= spec_spawn_args(server_addr@, instance@, app_dir@, signal_file@, admin_credentials@, port));
    r
}

/// The message of a test that gave up waiting for its server.
pub open spec fn start_timeout_message() -> Seq<char> {
    "Test server took more than "@ + decimal(START_TIMEOUT_SECS as nat) + " seconds to signal its start. Aborting."@
}

pub fn start_timeout_error() -> (r: String)
    ensures
        r@ == start_timeout_message(),
{
    let mut r = "Test server took more than ".to_owned();
    let t = decimal_string(START_TIMEOUT_SECS);
    r.append(t.as_str());
    r.append(" seconds to signal its start. Aborting.");
    r
}

pub const KILL_PREFIX: &'static str = "kill -- $(pstree -p -g ";

pub const KILL_SUFFIX: &'static str = " | head -n1 | awk '{ m=match($0, /library\\(([0-9]+)/, ms); if (m) { print ms[1] } }')";

/// The shell command that kills the processes under the script with this id.
pub fn kill_command(pid: u32) -> (r: String)
    ensures
        r@ == KILL_PREFIX@ + decimal(pid as nat) + KILL_SUFFIX@,
{
    let mut r = KILL_PREFIX.to_owned();
    let p = decimal_string(pid as u64);
    r.append(p.as_str());
    r.append(KILL_SUFFIX);
    r
}

} // verus!
