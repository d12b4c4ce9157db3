use sentyalie::discord::{
    channel_message_request, channel_messages_request, create_message, games_to_json,
    get_last_posted_message, message_body, ChatMessage, DirectMessageFlow, HttpMethod,
};
use sentyalie::{Game, Platform};

fn game(title: &str) -> Game {
    Game {
        title: title.to_string(),
        platform: Platform::Epic,
    }
}

#[test]
fn format_announcement_empty() {
    assert_eq!(create_message(&vec![]), "Free games this week: ");
}

#[test]
fn format_announcement_two_titles() {
    let games = vec![game("A"), game("B")];
    assert_eq!(create_message(&games), "Free games this week: A, B");
}

#[test]
fn format_announcement_keeps_order_and_duplicates() {
    let games = vec![game("B"), game("A"), game("B")];
    assert_eq!(create_message(&games), "Free games this week: B, A, B");
}

#[test]
fn message_body_is_the_json_content_object() {
    assert_eq!(
        message_body("Free games this week: Sheltered"),
        r#"{"content":"Free games this week: Sheltered"}"#
    );
}

#[test]
fn message_body_escapes_like_the_chat_api_expects() {
    // Cross-check the escaping against serde_json's encoding of the same
    // string value.
    let texts = [
        "plain",
        "a \"quoted\" word",
        "back\\slash",
        "line\nbreak\ttab\rreturn",
        "control \u{1} \u{1f} bytes",
        "already free\u{8}\u{c}",
        "unicode \u{e9}\u{4e16}",
    ];
    for text in texts {
        let expected = format!(
            "{{\"content\":{}}}",
            serde_json::to_string(&serde_json::Value::String(text.to_string())).unwrap()
        );
        assert_eq!(message_body(text), expected);
    }
}

#[test]
fn channel_post_request_is_fully_determined() {
    let games = vec![game("Sheltered"), game("Nioh: The Complete Edition")];
    let content = create_message(&games);
    let request = channel_message_request(
        "https://discordapp.com",
        "token",
        "channel-id",
        content.as_str(),
    );

    assert_eq!(request.method, HttpMethod::Post);
    assert_eq!(
        request.url,
        "https://discordapp.com/api/channels/channel-id/messages"
    );
    assert_eq!(request.authorization, "Bot token");
    assert_eq!(request.content_type, "application/json");
    assert_eq!(
        request.body.as_deref(),
        Some(r#"{"content":"Free games this week: Sheltered, Nioh: The Complete Edition"}"#)
    );
}

#[test]
fn direct_message_flow_creates_the_channel_first() {
    let games = vec![game("Sheltered"), game("Nioh: The Complete Edition")];
    let content = create_message(&games);
    let (flow, create_channel) = DirectMessageFlow::start(
        "https://discordapp.com",
        "token",
        "user-id",
        content.as_str(),
    );

    // First leg: the direct-message channel is created for the user.
    assert_eq!(create_channel.method, HttpMethod::Post);
    assert_eq!(
        create_channel.url,
        "https://discordapp.com/api/users/@me/channels"
    );
    assert_eq!(create_channel.authorization, "Bot token");
    assert_eq!(create_channel.content_type, "application/json");
    assert_eq!(
        create_channel.body.as_deref(),
        Some(r#"{"recipient_id":"user-id"}"#)
    );

    // Second leg: the announcement goes to the channel id the platform
    // returned, never to a channel named after the raw user id.
    let post = flow.message_request("cool-id");
    assert_eq!(post.method, HttpMethod::Post);
    assert_eq!(
        post.url,
        "https://discordapp.com/api/channels/cool-id/messages"
    );
    assert_ne!(
        post.url,
        "https://discordapp.com/api/channels/user-id/messages"
    );
    assert_eq!(
        post.body.as_deref(),
        Some(r#"{"content":"Free games this week: Sheltered, Nioh: The Complete Edition"}"#)
    );
}

#[test]
fn games_json_empty_array() {
    assert_eq!(games_to_json(&vec![]), "[]");
}

#[test]
fn games_json_lists_title_and_platform() {
    let games = vec![game("Sheltered"), game("He said \"hi\"")];
    assert_eq!(
        games_to_json(&games),
        r#"[{"title":"Sheltered","platform":"Epic"},{"title":"He said \"hi\"","platform":"Epic"}]"#
    );
}

#[test]
fn history_request_is_an_authenticated_get() {
    let request = channel_messages_request("https://discordapp.com", "token", "channel-id");
    assert_eq!(request.method, HttpMethod::Get);
    assert_eq!(
        request.url,
        "https://discordapp.com/api/channels/channel-id/messages"
    );
    assert_eq!(request.authorization, "Bot token");
    assert_eq!(request.content_type, "application/json");
    assert!(request.body.is_none());
}

fn msg(content: &str, timestamp_millis: i64, author: &str) -> ChatMessage {
    ChatMessage {
        content: content.to_string(),
        timestamp_millis,
        author_username: author.to_string(),
    }
}

#[test]
fn last_posted_message_empty_history() {
    assert_eq!(get_last_posted_message(&vec![]), None);
}

#[test]
fn last_posted_message_ignores_other_authors() {
    let history = vec![
        msg("hello", 10, "someone-else"),
        msg("old announcement", 5, "free-game-announcer"),
        msg("newest of all", 20, "someone-else"),
    ];
    assert_eq!(
        get_last_posted_message(&history),
        Some("old announcement".to_string())
    );
}

#[test]
fn last_posted_message_takes_the_latest_timestamp() {
    let history = vec![
        msg("first", 5, "free-game-announcer"),
        msg("third", 30, "free-game-announcer"),
        msg("second", 10, "free-game-announcer"),
    ];
    assert_eq!(get_last_posted_message(&history), Some("third".to_string()));
}

#[test]
fn last_posted_message_tie_goes_to_the_later_entry() {
    let history = vec![
        msg("earlier", 10, "free-game-announcer"),
        msg("later", 10, "free-game-announcer"),
    ];
    assert_eq!(get_last_posted_message(&history), Some("later".to_string()));
}
