use sentyalie::control::{plan_for, route, Endpoint, HandlerPlan, ShutdownSignal};
use sentyalie::Config;

#[test]
fn route_maps_the_five_paths() {
    assert_eq!(route("ping"), Some(Endpoint::Ping));
    assert_eq!(route("run"), Some(Endpoint::Run));
    assert_eq!(route("test"), Some(Endpoint::Test));
    assert_eq!(route("get"), Some(Endpoint::Get));
    assert_eq!(route("shutdown"), Some(Endpoint::Shutdown));
    assert_eq!(route("pong"), None);
    assert_eq!(route(""), None);
}

#[test]
fn plans_follow_the_endpoints() {
    assert_eq!(plan_for(Endpoint::Ping), HandlerPlan::Pong);
    assert_eq!(plan_for(Endpoint::Run), HandlerPlan::FetchThenChannelPost);
    assert_eq!(plan_for(Endpoint::Test), HandlerPlan::FetchThenDirectPost);
    assert_eq!(plan_for(Endpoint::Get), HandlerPlan::FetchThenReply);
    assert_eq!(plan_for(Endpoint::Shutdown), HandlerPlan::TriggerShutdown);
}

#[test]
fn get_flow_never_posts_to_chat() {
    let plan = plan_for(Endpoint::Get);
    assert_ne!(plan, HandlerPlan::FetchThenChannelPost);
    assert_ne!(plan, HandlerPlan::FetchThenDirectPost);
}

#[test]
fn shutdown_fires_exactly_once() {
    let mut signal = ShutdownSignal::new();
    assert!(signal.fire());
    assert!(!signal.fire());
    assert!(!signal.fire());
}

#[test]
fn default_config_points_at_the_real_services() {
    let config = Config::default();
    assert_eq!(config.port, 8080);
    assert_eq!(config.token, "");
    assert_eq!(config.channel_id, "");
    assert_eq!(config.user_id, "");
    assert_eq!(
        config.epic_base_url,
        "https://store-site-backend-static.ak.epicgames.com"
    );
    assert_eq!(config.discord_base_url, "https://discordapp.com");
}
