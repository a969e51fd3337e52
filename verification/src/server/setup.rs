//! Starting the server: waiting for the database, choosing the log format,
//! seeding a fresh database.
use vstd::prelude::*;
use crate::text::{find, find_from, decimal, decimal_string};
use crate::sql::{Statement, StatementView};
use super::resources::book::{seed_statement, seed_statement_view};
use super::resources::user::{create_super_user, create_user_statement_view};
use crate::entities::access_mask;

verus! {

/// How many times the database is probed again after the first try.
pub const TRY_LIMIT: u64 = 3;

/// The pause between two probes, in seconds.
pub const RETRY_DELAY_SECS: u64 = 5;

/// What asking the database whether it exists gave.
pub enum DbProbe {
    Exists(bool),
    Unreachable,
}

pub enum WaitAction {
    /// Drop the database, create it afresh, and go on.
    DropAndCreate,
    /// Create the database, and go on.
    Create,
    /// Go on with the database as it is.
    Proceed,
    /// Pause, then probe again.
    Retry,
    /// Stop the program with this message.
    GiveUp(String),
}

pub open spec fn give_up_message() -> Seq<char> {
    "Failed to connect within "@ + decimal((TRY_LIMIT * RETRY_DELAY_SECS) as nat) + " seconds ("@
        + decimal(TRY_LIMIT as nat) + " tries)"@
}

/// One probe of the database, the `try_count`-th (from 0): once it answers, a
/// reset drops and recreates it, and otherwise it is created when missing;
/// when it does not answer, the probe is tried again until the limit.
pub fn wait_for_database(try_count: u64, resetting: bool, probe: DbProbe) -> (r: WaitAction)
    requires
        try_count <= TRY_LIMIT,
    ensures
        match probe {
            DbProbe::Exists(true) => if resetting { r is DropAndCreate } else { r is Proceed },
            DbProbe::Exists(false) => r is Create,
            DbProbe::Unreachable => if try_count == TRY_LIMIT {
                r matches WaitAction::GiveUp(m) && m@ == give_up_message()
            } else {
                r is Retry
            },
        },
{
    match probe {
        DbProbe::Exists(exists) => {
            if resetting && exists {
                WaitAction::DropAndCreate
            } else if exists {
                WaitAction::Proceed
            } else {
                WaitAction::Create
            }
        },
        DbProbe::Unreachable => {
            if try_count == TRY_LIMIT {
                let mut m = "Failed to connect within ".to_owned();
                let total = decimal_string(TRY_LIMIT * RETRY_DELAY_SECS);
                m.append(total.as_str());
                m.append(" seconds (");
                let tries = decimal_string(TRY_LIMIT);
                m.append(tries.as_str());
                m.append(" tries)");
                WaitAction::GiveUp(m)
            } else {
                WaitAction::Retry
            }
        },
    }
}

/// The separator of the email and the token in the admin's credentials.
pub const CREDENTIALS_SEPARATOR: &'static str = "::";

/// The parts of `s` split at `::`: the first, and the second when there is one.
pub open spec fn spec_parse_admin_credentials(s: Seq<char>) -> Option<(Seq<char>, Seq<char>)> {
    match find_from(s, CREDENTIALS_SEPARATOR@, 0) {
        None => None,
        Some(i) => {
            let rest = s.skip(i + CREDENTIALS_SEPARATOR@.len());
            let token = match find_from(rest, CREDENTIALS_SEPARATOR@, 0) {
                Some(j) => rest.take(j),
                None => rest,
            };
            Some((s.take(i), token))
        },
    }
}

/// The email and the token of the admin a test run asks for, written `email::token`.
pub fn parse_admin_credentials(s: &str) -> (r: Option<(String, String)>)
    ensures
        match r {
            Some((e, t)) => spec_parse_admin_credentials(s@) == Some((e@, t@)),
            None => spec_parse_admin_credentials(s@) is None,
        },
{
    match find(s, CREDENTIALS_SEPARATOR) {
        None => None,
        Some(i) => {
            let n = s.unicode_len();
            let m = CREDENTIALS_SEPARATOR.unicode_len();
            proof {
                crate::text::lemma_find_from_bounds(s@, CREDENTIALS_SEPARATOR@, 0);
            }
            let email = s.substring_char(0, i).to_owned();
            let rest = s.substring_char(i + m, n);
            let token = match find(rest, CREDENTIALS_SEPARATOR) {
                Some(j) => {
                    proof {
                        crate::text::lemma_find_from_bounds(rest@, CREDENTIALS_SEPARATOR@, 0);
                    }
                    rest.substring_char(0, j).to_owned()
                },
                None => rest.to_owned(),
            };
            assert(email@ =~= s@.take(i as int));
            assert(rest@ =~= s@.skip(i + m));
            proof {
                if find_from(rest@, CREDENTIALS_SEPARATOR@, 0) is Some {
                    assert(token@ =~= rest@.take(find_from(rest@, CREDENTIALS_SEPARATOR@, 0)->0));
                }
            }
            Some((email, token))
        },
    }
}

/// Credentials written `email::token` give back the email and the token, for
/// an email without colons and a token without `::`.
pub proof fn lemma_credentials_roundtrip(email: Seq<char>, token: Seq<char>)
    requires
        forall|k: int| 0 <= k < email.len() ==> #[trigger] email[k] != ':',
        find_from(token, CREDENTIALS_SEPARATOR@, 0) is None,
    ensures
        spec_parse_admin_credentials(email + CREDENTIALS_SEPARATOR@ + token) == Some((email, token)),
{
    reveal_strlit("::");
    let sep = CREDENTIALS_SEPARATOR@;
    let s = email + sep + token;
    let n = email.len() as int;
    assert(s.subrange(n, n + 2) =~= sep);
    assert forall|k: int| 0 <= k < n implies !crate::text::matches_at(s, sep, k) by {
        if crate::text::matches_at(s, sep, k) {
            assert(s.subrange(k, k + 2)[0] == s[k]);
            assert(s[k] == email[k]);
        }
    }
    crate::text::lemma_find_from_first(s, sep, 0, n);
    assert(s.skip(n + 2) =~= token);
    assert(s.take(n) =~= email);
}

/// What a start that seeds the database writes into it: the admin, when a
/// test run supplies its credentials, and otherwise the seed books.
pub fn seeding(is_seeding: bool, admin: &Option<(String, String)>) -> (r: Option<Statement>)
    ensures
        !is_seeding ==> r is None,
        is_seeding ==> (r matches Some(st) && st@ == match admin {
            Some((e, t)) => create_user_statement_view(e@, access_mask::ADMIN, t@),
            None => seed_statement_view(),
        }),
{
    if !is_seeding {
        None
    } else {
        match admin {
            Some((e, t)) => Some(create_super_user(e, t)),
            None => Some(seed_statement()),
        }
    }
}

#[derive(PartialEq, Eq, Structural, Clone, Copy, Debug)]
pub enum LogFormat {
    /// The message alone, as the test snapshots hold it.
    Test,
    /// The logger's own detailed format.
    Detailed,
}

/// The log format named on the command line: only `test` is known; none
/// means the detailed format; another name is an error with its message.
pub fn log_format(name: Option<&str>) -> (r: Result<LogFormat, String>)
    ensures
        match name {
            None => r == Ok::<LogFormat, String>(LogFormat::Detailed),
            Some(n) => if n@ == "test"@ {
                r == Ok::<LogFormat, String>(LogFormat::Test)
            } else {
                r matches Err(m) && m@ == "Invalid logging format "@ + n@
            },
        },
{
    match name {
        None => Ok(LogFormat::Detailed),
        Some(n) => {
            if n.to_owned() == "test".to_owned() {
                Ok(LogFormat::Test)
            } else {
                let mut m = "Invalid logging format ".to_owned();
                m.append(n);
                Err(m)
            }
        },
    }
}

} // verus!
