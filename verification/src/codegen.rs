//! The naming conventions of the code that the messaging macros write: from
//! an actor's name and its messages' names come the names of the message
//! types, of their payloads, of the actor's channel and of the request
//! parsers; and the configuration keys that the macros accept.
use vstd::prelude::*;

verus! {

/// A character in upper case, when it is an ASCII lower-case letter.
pub open spec fn ascii_upper(c: char) -> char {
    if 'a' <= c && c <= 'z' {
        (c as u32 - 32) as char
    } else {
        c
    }
}

pub open spec fn spec_to_ascii_uppercase(s: Seq<char>) -> Seq<char> {
    s.map_values(|c: char| ascii_upper(c))
}

/// The upper-case ASCII letters, in order.
pub const UPPER_LETTERS: &'static str = "ABCDEFGHIJKLMNOPQRSTUVWXYZ";

proof fn lemma_upper_letters()
    ensures
        UPPER_LETTERS@.len() == 26,
        forall|k: int| 0 <= k < 26 ==> #[trigger] UPPER_LETTERS@[k] == ((65 + k) as u32) as char,
{
    reveal_strlit("ABCDEFGHIJKLMNOPQRSTUVWXYZ");
    assert(UPPER_LETTERS@ =~= seq!['A', 'B', 'C', 'D', 'E', 'F', 'G', 'H', 'I', 'J', 'K', 'L', 'M', 'N', 'O', 'P', 'Q', 'R', 'S', 'T', 'U', 'V', 'W', 'X', 'Y', 'Z']);
}

/// `s` with its ASCII lower-case letters in upper case.
pub fn to_ascii_uppercase(s: &str) -> (r: String)
    ensures
        r@ == spec_to_ascii_uppercase(s@),
{
    let n = s.unicode_len();
    let mut r = String::new();
    let mut i: usize = 0;
    while i < n
        invariant
            n == s@.len(),
            i <= n,
            r@ =~= spec_to_ascii_uppercase(s@.take(i as int)),
        decreases n - i,
    {
        let c = s.get_char(i);
        let ghost prev = s@.take(i as int);
        assert(s@.take(i + 1) =~= prev.push(c));
        assert(spec_to_ascii_uppercase(prev.push(c)) =~= spec_to_ascii_uppercase(prev).push(ascii_upper(c)));
        if 'a' <= c && c <= 'z' {
            let k = (c as u32 - 97) as usize;
            proof {
                lemma_upper_letters();
                assert(UPPER_LETTERS@.subrange(k as int, k + 1) =~= seq![ascii_upper(c)]);
            }
            r.append(UPPER_LETTERS.substring_char(k, k + 1));
        } else {
            assert(s@.subrange(i as int, i + 1) =~= seq![c]);
            r.append(s.substring_char(i, i + 1));
        }
        i = i + 1;
    }
    assert(s@.take(n as int) =~= s@);
    r
}

fn concat(a: &str, b: &str) -> (r: String)
    ensures
        r@ == a@ + b@,
{
    let mut r = a.to_owned();
    r.append(b);
    r
}

/// The static that holds an actor's channel: the actor's name in upper case.
pub fn actor_lock_name(actor: &str) -> (r: String)
    ensures
        r@ == spec_to_ascii_uppercase(actor@),
{
    to_ascii_uppercase(actor)
}

/// The enum of an actor's messages: `{Actor}Msg`.
pub fn actor_msg_name(actor: &str) -> (r: String)
    ensures
        r@ == actor@ + "Msg"@,
{
    concat(actor, "Msg")
}

/// The struct of one message: `{Actor}{Message}Msg`.
pub fn message_struct_name(actor: &str, message: &str) -> (r: String)
    ensures
        r@ == actor@ + message@ + "Msg"@,
{
    let mut r = concat(actor, message);
    r.append("Msg");
    r
}

/// The payload of one message: `{Actor}{Message}Payload`.
pub fn message_payload_name(actor: &str, message: &str) -> (r: String)
    ensures
        r@ == actor@ + message@ + "Payload"@,
{
    let mut r = concat(actor, message);
    r.append("Payload");
    r
}

/// The function that parses a request for the handler named `name`: `extract_{name}`.
pub fn parser_name(name: &str) -> (r: String)
    ensures
        r@ == "extract_"@ + name@,
{
    concat("extract_", name)
}

/// The message that a handler tagged `tag` sends: `{Tag}Msg`.
pub fn tag_msg_name(tag: &str) -> (r: String)
    ensures
        r@ == tag@ + "Msg"@,
{
    concat(tag, "Msg")
}

#[derive(PartialEq, Eq, Structural, Clone, Copy, Debug)]
pub enum ConfigKey {
    Actor,
    ResponseType,
    Name,
    Tag,
}

/// The error for a configuration key that a macro does not know.
pub open spec fn unknown_key_message(name: Seq<char>) -> Seq<char> {
    name + " is not a known configuration name"@
}

fn unknown_key(name: &str) -> (r: String)
    ensures
        r@ == unknown_key_message(name@),
{
    concat(name, " is not a known configuration name")
}

fn same(a: &str, b: &str) -> (r: bool)
    ensures
        r == (a@ == b@),
{
    a.to_owned() == b.to_owned()
}

/// A key of the actor macro's configuration: only `actor`.
pub fn actor_config_key(name: &str) -> (r: Result<ConfigKey, String>)
    ensures
        name@ == "actor"@ ==> r == Ok::<ConfigKey, String>(ConfigKey::Actor),
        name@ != "actor"@ ==> (r matches Err(m) && m@ == unknown_key_message(name@)),
{
    if same(name, "actor") {
        Ok(ConfigKey::Actor)
    } else {
        Err(unknown_key(name))
    }
}

/// A key of the request handler macro's configuration: `actor`,
/// `response_type`, `name` or `tag`.
pub fn handler_config_key(name: &str) -> (r: Result<ConfigKey, String>)
    ensures
        name@ == "actor"@ ==> r == Ok::<ConfigKey, String>(ConfigKey::Actor),
        name@ == "response_type"@ ==> r == Ok::<ConfigKey, String>(ConfigKey::ResponseType),
        name@ == "name"@ ==> r == Ok::<ConfigKey, String>(ConfigKey::Name),
        name@ == "tag"@ ==> r == Ok::<ConfigKey, String>(ConfigKey::Tag),
        name@ != "actor"@ && name@ != "response_type"@ && name@ != "name"@ && name@ != "tag"@ ==> (r matches Err(m)
            && m@ == unknown_key_message(name@)),
{
    proof {
        reveal_strlit("actor");
        reveal_strlit("response_type");
        reveal_strlit("name");
        reveal_strlit("tag");
        assert("actor"@.len() == 5);
        assert("response_type"@.len() == 13);
        assert("name"@.len() == 4);
        assert("tag"@.len() == 3);
    }
    if same(name, "actor") {
        Ok(ConfigKey::Actor)
    } else if same(name, "response_type") {
        Ok(ConfigKey::ResponseType)
    } else if same(name, "name") {
        Ok(ConfigKey::Name)
    } else if same(name, "tag") {
        Ok(ConfigKey::Tag)
    } else {
        Err(unknown_key(name))
    }
}

} // verus!
