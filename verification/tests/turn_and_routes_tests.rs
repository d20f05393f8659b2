use chat_relay::backend::chat_model;
use chat_relay::backend::completion_reply;
use chat_relay::backend::helpful_system_prompt;
use chat_relay::backend::max_generation_length;
use chat_relay::backend::snarky_system_prompt;
use chat_relay::error::Error;
use chat_relay::routes::get_new_token;
use chat_relay::routes::new_user_message;
use chat_relay::routes::paths;
use chat_relay::turn::ChatMessage;
use chat_relay::turn::assistant_role;
use chat_relay::turn::user_role;

#[test]
fn builds_an_unpersisted_turn() {
    let m = ChatMessage::new(user_role(), "hi".to_string(), 7);
    assert_eq!(m.role, "user");
    assert_eq!(m.content, "hi");
    assert_eq!(m.timestamp, 7);
    assert!(m.id.is_none());
}

#[test]
fn successful_write_attaches_the_handle() {
    let m = ChatMessage::new(assistant_role(), "ok".to_string(), 7);
    let m = m.with_id("messages:abc".to_string());
    assert_eq!(m.id.as_deref(), Some("messages:abc"));
    assert_eq!(m.role, "assistant");
    assert_eq!(m.content, "ok");
    assert_eq!(m.timestamp, 7);
}

#[test]
fn stamping_uses_the_real_clock() {
    let m = ChatMessage::stamped_now(user_role(), "hi".to_string());
    // Milliseconds since the epoch: positive, and past the year 2001.
    assert!(m.timestamp > 1_000_000_000_000);
}

#[test]
fn completion_reply_takes_the_content_or_apologizes() {
    assert_eq!(completion_reply(Some("All good.".to_string())), "All good.");
    assert_eq!(completion_reply(Some(String::new())), "");
    assert_eq!(completion_reply(None), "Oops, something went wrong.");
}

#[test]
fn backend_configuration_constants() {
    assert_eq!(chat_model(), "gpt-4");
    assert_eq!(helpful_system_prompt(), "You are a helpful assistant.");
    assert_eq!(
        snarky_system_prompt(),
        "Respond briefly with a snarky sentence or two."
    );
    assert_eq!(max_generation_length(), 1000);
}

#[test]
fn database_error_message() {
    assert_eq!(Error::Db.message(), "database error");
}

#[test]
fn new_user_report_lists_credentials_and_token() {
    let r = new_user_message("Ada", "Lovelace", "tok123");
    assert_eq!(
        r,
        "New user created!\n\nName: Ada\nPassword: Lovelace\nToken: tok123\n\nTo log in, use this command:\n\nsurreal sql --ns test --db test --pretty --token \"tok123\""
    );
}

#[test]
fn token_instructions_name_the_signin_endpoint() {
    let t = get_new_token();
    assert!(t.starts_with("Need a new token? Use this command:"));
    assert!(t.contains("http://localhost:8000/signin"));
    assert!(t.ends_with("--token YOUR_TOKEN_HERE"));
}

#[test]
fn route_guide_lists_every_route() {
    let p = paths();
    for route in ["/session", "/person/{id}", "/people", "/new_user", "/new_token"] {
        assert!(p.contains(route));
    }
}
