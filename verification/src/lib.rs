//! A small relay that watches a game store's promotional catalog for titles
//! that are currently free and announces them on a chat platform.
//!
//! The crate holds the decision logic of that relay: filtering the catalog
//! down to the currently free titles, rendering the announcement text and the
//! JSON payloads, planning the chat requests (channel post and the two-leg
//! direct-message flow), routing the control endpoints, and the one-shot
//! shutdown signal. The surrounding process performs the HTTP traffic and
//! hands plain values in and out.

use vstd::prelude::*;

pub mod control;
pub mod discord;
pub mod epic_client;

verus! {

/// Whether two string slices hold the same characters.
pub fn str_eq(a: &str, b: &str) -> (r: bool)
    ensures
        r == (a@ == b@),
{
    let owned_a: String = a.to_owned();
    let owned_b: String = b.to_owned();
    owned_a == owned_b
}

/// The store a free title belongs to. Only the Epic store is polled today;
/// the second variant is reserved.
#[derive(Clone, Copy, Debug, PartialEq, Eq, Structural)]
pub enum Platform {
    Epic,
    _Steam,
}

/// A free title as it is announced: its display title and the store it is on.
#[derive(Clone, Debug, PartialEq, Eq)]
pub struct Game {
    pub title: String,
    pub platform: Platform,
}

/// The immutable process configuration: where to listen, how to talk to the
/// chat platform, and where both external services live.
#[derive(Clone, Debug)]
pub struct Config {
    pub port: u16,
    pub token: String,
    pub channel_id: String,
    pub user_id: String,
    pub epic_base_url: String,
    pub discord_base_url: String,
}

impl Default for Config {
    fn default() -> (c: Self)
        ensures
            c.port == 8080,
            c.token@ == Seq::<char>::empty(),
            c.channel_id@ == Seq::<char>::empty(),
            c.user_id@ == Seq::<char>::empty(),
            c.epic_base_url@ == "https://store-site-backend-static.ak.epicgames.com"@,
            c.discord_base_url@ == "https://discordapp.com"@,
    {
        Config {
            port: 8080,
            token: String::new(),
            channel_id: String::new(),
            user_id: String::new(),
            epic_base_url: "https://store-site-backend-static.ak.epicgames.com".to_owned(),
            discord_base_url: "https://discordapp.com".to_owned(),
        }
    }
}

} // verus!
