//! The full announcement path on plain values: a catalog with two free
//! titles at the reference instant turns into exactly one planned channel
//! post carrying the expected body.

use sentyalie::discord::{channel_message_request, create_message, HttpMethod};
use sentyalie::epic_client::{parse_and_filter, CatalogElement, PromotionalOffer};

const NOW_MILLIS: i64 = 1631467068000;

fn free_week_of_sept_9(title: &str) -> CatalogElement {
    CatalogElement {
        title: title.to_string(),
        promotions: Some(vec![vec![PromotionalOffer {
            start_date: "2021-09-09T15:00:00.000Z".to_string(),
            end_date: "2021-09-16T15:00:00.000Z".to_string(),
            discount_percentage: 0,
        }]]),
    }
}

#[test]
fn channel_post_flow_posts_the_announcement_once() {
    let catalog = vec![
        CatalogElement {
            title: "ARK: Survival Evolved".to_string(),
            promotions: None,
        },
        free_week_of_sept_9("Sheltered"),
        free_week_of_sept_9("Nioh: The Complete Edition"),
    ];

    let free_games = parse_and_filter(&catalog, NOW_MILLIS).unwrap();
    let content = create_message(&free_games);
    let request = channel_message_request(
        "https://discordapp.com",
        "token",
        "channel-id",
        content.as_str(),
    );

    assert_eq!(request.method, HttpMethod::Post);
    assert_eq!(
        request.url,
        "https://discordapp.com/api/channels/channel-id/messages"
    );
    assert_eq!(
        request.body.as_deref(),
        Some(r#"{"content":"Free games this week: Sheltered, Nioh: The Complete Edition"}"#)
    );
}
