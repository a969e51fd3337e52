use library::codegen::{
    actor_config_key, actor_lock_name, actor_msg_name, handler_config_key, message_payload_name,
    message_struct_name, parser_name, tag_msg_name, to_ascii_uppercase, ConfigKey,
};
use library::test_utils::format::format_test_name;
use library::text::{decimal_string, find};

#[test]
fn test_names_cut_the_closure_and_replace_colons() {
    assert_eq!(format_test_name("book::test_borrow::{{closure}}"), "book__test_borrow");
    assert_eq!(format_test_name("user::test_create_user"), "user__test_create_user");
    assert_eq!(format_test_name("a::{{closure}}::b::{{closure}}"), "a");
    assert_eq!(format_test_name(""), "");
    assert_eq!(format_test_name("::{{closure}}"), "");
    assert_eq!(format_test_name("é:ü"), "é_ü");
}

#[test]
fn formatting_a_test_name_twice_changes_nothing() {
    for raw in ["book::test_list::{{closure}}", "x:y:z", "plain", "::{{closure}}x"] {
        let once = format_test_name(raw);
        assert!(!once.contains(':'));
        assert_eq!(format_test_name(&once), once);
    }
}

#[test]
fn finding_by_characters() {
    assert_eq!(find("abcabc", "ca"), Some(2));
    assert_eq!(find("héllo", "llo"), Some(2));
    assert_eq!(find("abc", ""), Some(0));
    assert_eq!(find("ab", "abc"), None);
    assert_eq!(find("aaa", "b"), None);
}

#[test]
fn decimal_digits() {
    assert_eq!(decimal_string(0), "0");
    assert_eq!(decimal_string(15), "15");
    assert_eq!(decimal_string(u64::MAX), u64::MAX.to_string());
}

#[test]
fn message_names_follow_the_convention() {
    // generate!(User, [(Login, User)]) writes UserLoginMsg, UserMsg, UserLoginPayload and USER.
    assert_eq!(message_struct_name("User", "Login"), "UserLoginMsg");
    assert_eq!(actor_msg_name("User"), "UserMsg");
    assert_eq!(message_payload_name("User", "Login"), "UserLoginPayload");
    assert_eq!(actor_lock_name("User"), "USER");
    assert_eq!(actor_lock_name("Book"), "BOOK");
    assert_eq!(parser_name("post"), "extract_post");
    assert_eq!(tag_msg_name("Creation"), "CreationMsg");
    assert_eq!(to_ascii_uppercase("aZ_9é"), "AZ_9é");
}

#[test]
fn configuration_keys() {
    assert_eq!(actor_config_key("actor"), Ok(ConfigKey::Actor));
    assert_eq!(actor_config_key("tag"), Err("tag is not a known configuration name".to_string()));
    assert_eq!(handler_config_key("actor"), Ok(ConfigKey::Actor));
    assert_eq!(handler_config_key("response_type"), Ok(ConfigKey::ResponseType));
    assert_eq!(handler_config_key("name"), Ok(ConfigKey::Name));
    assert_eq!(handler_config_key("tag"), Ok(ConfigKey::Tag));
    assert_eq!(handler_config_key("nope"), Err("nope is not a known configuration name".to_string()));
}
