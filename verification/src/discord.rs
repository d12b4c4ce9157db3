//! The chat side of the relay: rendering the announcement, framing the JSON
//! payloads, and planning the HTTP requests against the chat platform.
//!
//! The functions here compute exactly what is sent — URL, headers and body —
//! as plain values; the surrounding process performs the transfers. The
//! direct-message flow is two-legged by the platform's protocol: a
//! direct-message channel must be created (or looked up) first, and the
//! announcement is then posted to the returned channel id, never to a
//! user-id endpoint.

use vstd::prelude::*;
use vstd::string::StrSliceExecFns;
use vstd::string::StringExecFns;

use crate::Game;
use crate::Platform;

verus! {

/// `items` joined with `sep` between consecutive items.
pub open spec fn join_with(items: Seq<Seq<char>>, sep: Seq<char>) -> Seq<char>
    decreases items.len(),
{
    if items.len() == 0 {
        Seq::empty()
    } else if items.len() == 1 {
        items[0]
    } else {
        join_with(items.drop_last(), sep) + sep + items.last()
    }
}

proof fn lemma_join_with_push(items: Seq<Seq<char>>, x: Seq<char>, sep: Seq<char>)
    ensures
        join_with(items.push(x), sep) == if items.len() == 0 {
            x
        } else {
            join_with(items, sep) + sep + x
        },
{
    assert(items.push(x).drop_last() =~= items);
    assert(items.push(x).last() == x);
    if items.len() == 0 {
        assert(items.push(x)[0] == x);
    }
}

/// The announcement line: the fixed prefix, then the titles joined with a
/// comma and a space. No titles leaves the bare prefix.
pub open spec fn announcement_text(titles: Seq<Seq<char>>) -> Seq<char> {
    "Free games this week: "@ + join_with(titles, ", "@)
}

/// Renders the announcement for the given games, in order.
pub fn create_message(games: &Vec<Game>) -> (r: String)
    ensures
        r@ == announcement_text(games@.map_values(|g: Game| g.title@)),
{
    let ghost titles = games@.map_values(|g: Game| g.title@);
    let mut message: String = "Free games this week: ".to_owned();
    proof {
        assert(message@ =~= "Free games this week: "@ + join_with(
            titles.take(0),
            ", "@,
        ));
    }
    let mut i: usize = 0;
    while i < games.len()
        invariant
            i <= games.len(),
            titles == games@.map_values(|g: Game| g.title@),
            titles.len() == games@.len(),
            message@ == "Free games this week: "@ + join_with(titles.take(i as int), ", "@),
        decreases games.len() - i,
    {
        if i > 0 {
            message.append(", ");
        }
        message.append(games[i].title.as_str());
        proof {
            lemma_join_with_push(titles.take(i as int), titles[i as int], ", "@);
            assert(titles.take(i as int).push(titles[i as int]) =~= titles.take(i as int + 1));
            assert(message@ =~= "Free games this week: "@ + join_with(
                titles.take(i as int + 1),
                ", "@,
            ));
        }
        i = i + 1;
    }
    proof {
        assert(titles.take(titles.len() as int) =~= titles);
    }
    message
}

/// The value of a hexadecimal digit, written as its lower-case character.
pub open spec fn hex_digit(n: int) -> char {
    if n == 0 {
        '0'
    } else if n == 1 {
        '1'
    } else if n == 2 {
        '2'
    } else if n == 3 {
        '3'
    } else if n == 4 {
        '4'
    } else if n == 5 {
        '5'
    } else if n == 6 {
        '6'
    } else if n == 7 {
        '7'
    } else if n == 8 {
        '8'
    } else if n == 9 {
        '9'
    } else if n == 10 {
        'a'
    } else if n == 11 {
        'b'
    } else if n == 12 {
        'c'
    } else if n == 13 {
        'd'
    } else if n == 14 {
        'e'
    } else {
        'f'
    }
}

/// How one character appears inside a JSON string: quote and backslash get
/// a backslash escape, the named control characters their short escapes,
/// the remaining control characters a `\u00XX` escape, and every other
/// character stands as itself.
pub open spec fn json_escape_char(c: char) -> Seq<char> {
    if c == '"' {
        seq!['\\', '"']
    } else if c == '\\' {
        seq!['\\', '\\']
    } else if c == '\u{8}' {
        seq!['\\', 'b']
    } else if c == '\u{c}' {
        seq!['\\', 'f']
    } else if c == '\n' {
        seq!['\\', 'n']
    } else if c == '\r' {
        seq!['\\', 'r']
    } else if (c as int) < 0x20 {
        if c == '\t' {
            seq!['\\', 't']
        } else {
            seq!['\\', 'u', '0', '0', hex_digit(c as int / 16), hex_digit(c as int % 16)]
        }
    } else {
        seq![c]
    }
}

/// A character sequence as it appears inside a JSON string literal.
pub open spec fn json_escape(s: Seq<char>) -> Seq<char>
    decreases s.len(),
{
    if s.len() == 0 {
        Seq::empty()
    } else {
        json_escape(s.drop_last()) + json_escape_char(s.last())
    }
}

fn hex_digit_char(n: u32) -> (r: char)
    requires
        n < 16,
    ensures
        r == hex_digit(n as int),
{
    match n {
        0 => '0',
        1 => '1',
        2 => '2',
        3 => '3',
        4 => '4',
        5 => '5',
        6 => '6',
        7 => '7',
        8 => '8',
        9 => '9',
        10 => 'a',
        11 => 'b',
        12 => 'c',
        13 => 'd',
        14 => 'e',
        _ => 'f',
    }
}

fn push_json_escaped_char(out: &mut Vec<char>, c: char)
    ensures
        final(out)@ == old(out)@ + json_escape_char(c),
{
    if c == '"' {
        out.push('\\');
        out.push('"');
    } else if c == '\\' {
        out.push('\\');
        out.push('\\');
    } else if c == '\u{8}' {
        out.push('\\');
        out.push('b');
    } else if c == '\u{c}' {
        out.push('\\');
        out.push('f');
    } else if c == '\n' {
        out.push('\\');
        out.push('n');
    } else if c == '\r' {
        out.push('\\');
        out.push('r');
    } else if (c as u32) < 0x20 {
        if c == '\t' {
            out.push('\\');
            out.push('t');
        } else {
            out.push('\\');
            out.push('u');
            out.push('0');
            out.push('0');
            out.push(hex_digit_char((c as u32) / 16));
            out.push(hex_digit_char((c as u32) % 16));
        }
    } else {
        out.push(c);
    }
    assert(out@ =~= old(out)@ + json_escape_char(c));
}

/// Appends the characters of `s` to `out` unchanged.
fn push_str_chars(out: &mut Vec<char>, s: &str)
    ensures
        final(out)@ == old(out)@ + s@,
{
    proof {
        assert(out@ =~= old(out)@ + s@.take(0));
    }
    let n = s.unicode_len();
    let mut i: usize = 0;
    while i < n
        invariant
            n == s@.len(),
            i <= n,
            out@ == old(out)@ + s@.take(i as int),
        decreases n - i,
    {
        out.push(s.get_char(i));
        proof {
            assert(out@ =~= old(out)@ + s@.take(i as int + 1));
        }
        i = i + 1;
    }
    proof {
        assert(s@.take(n as int) =~= s@);
    }
}

/// Appends the characters of `s`, escaped for a JSON string, to `out`.
fn push_json_escaped_str(out: &mut Vec<char>, s: &str)
    ensures
        final(out)@ == old(out)@ + json_escape(s@),
{
    proof {
        assert(json_escape(s@.take(0)) =~= Seq::<char>::empty());
        assert(out@ =~= old(out)@ + json_escape(s@.take(0)));
    }
    let n = s.unicode_len();
    let mut i: usize = 0;
    while i < n
        invariant
            n == s@.len(),
            i <= n,
            out@ == old(out)@ + json_escape(s@.take(i as int)),
        decreases n - i,
    {
        push_json_escaped_char(out, s.get_char(i));
        proof {
            assert(s@.take(i as int + 1).drop_last() =~= s@.take(i as int));
            assert(s@.take(i as int + 1).last() == s@[i as int]);
            assert(out@ =~= old(out)@ + json_escape(s@.take(i as int + 1)));
        }
        i = i + 1;
    }
    proof {
        assert(s@.take(n as int) =~= s@);
    }
}

/// Relies on `String`'s `FromIterator<char>` implementation: collecting
/// characters yields the string made of exactly those characters in order.
#[verifier::external_body]
fn string_from_chars(chars: &Vec<char>) -> (r: String)
    ensures
        r@ == chars@,
{
    chars.iter().collect()
}

/// The JSON body of a channel-message post: one `content` member whose
/// value is the message text as a JSON string.
pub open spec fn message_body_text(content: Seq<char>) -> Seq<char> {
    "{\"content\":\""@ + json_escape(content) + "\"}"@
}

/// Builds the channel-message body for the given text.
pub fn message_body(content: &str) -> (r: String)
    ensures
        r@ == message_body_text(content@),
{
    let mut out: Vec<char> = Vec::new();
    push_str_chars(&mut out, "{\"content\":\"");
    push_json_escaped_str(&mut out, content);
    push_str_chars(&mut out, "\"}");
    proof {
        assert(out@ =~= message_body_text(content@));
    }
    string_from_chars(&out)
}

/// The JSON body of a direct-message channel creation: one `recipient_id`
/// member holding the user id verbatim.
pub open spec fn recipient_body_text(user_id: Seq<char>) -> Seq<char> {
    "{\"recipient_id\":\""@ + user_id + "\"}"@
}

/// The name a platform is serialized under.
pub open spec fn platform_name(p: Platform) -> Seq<char> {
    match p {
        Platform::Epic => "Epic"@,
        Platform::_Steam => "_Steam"@,
    }
}

fn platform_str(p: &Platform) -> (r: &str)
    ensures
        r@ == platform_name(*p),
{
    match p {
        Platform::Epic => "Epic",
        Platform::_Steam => "_Steam",
    }
}

/// One game as a JSON object with its title and platform.
pub open spec fn game_json_text(g: Game) -> Seq<char> {
    "{\"title\":\""@ + json_escape(g.title@) + "\",\"platform\":\""@ + platform_name(g.platform)
        + "\"}"@
}

/// A list of games as a JSON array, in order.
pub open spec fn games_json_text(games: Seq<Game>) -> Seq<char> {
    "["@ + join_with(games.map_values(|g: Game| game_json_text(g)), ","@) + "]"@
}

fn push_game_json(out: &mut Vec<char>, g: &Game)
    ensures
        final(out)@ == old(out)@ + game_json_text(*g),
{
    push_str_chars(out, "{\"title\":\"");
    push_json_escaped_str(out, g.title.as_str());
    push_str_chars(out, "\",\"platform\":\"");
    push_str_chars(out, platform_str(&g.platform));
    push_str_chars(out, "\"}");
    assert(out@ =~= old(out)@ + game_json_text(*g));
}

/// Serializes the games to the JSON array the read-only endpoint returns.
pub fn games_to_json(games: &Vec<Game>) -> (r: String)
    ensures
        r@ == games_json_text(games@),
{
    let ghost items = games@.map_values(|g: Game| game_json_text(g));
    let mut out: Vec<char> = Vec::new();
    push_str_chars(&mut out, "[");
    proof {
        assert(out@ =~= "["@ + join_with(items.take(0), ","@));
    }
    let mut i: usize = 0;
    while i < games.len()
        invariant
            i <= games.len(),
            items == games@.map_values(|g: Game| game_json_text(g)),
            items.len() == games@.len(),
            out@ == "["@ + join_with(items.take(i as int), ","@),
        decreases games.len() - i,
    {
        if i > 0 {
            push_str_chars(&mut out, ",");
        }
        push_game_json(&mut out, &games[i]);
        proof {
            lemma_join_with_push(items.take(i as int), items[i as int], ","@);
            assert(items.take(i as int).push(items[i as int]) =~= items.take(i as int + 1));
            assert(out@ =~= "["@ + join_with(items.take(i as int + 1), ","@));
        }
        i = i + 1;
    }
    push_str_chars(&mut out, "]");
    proof {
        assert(items.take(items.len() as int) =~= items);
        assert(out@ =~= games_json_text(games@));
    }
    string_from_chars(&out)
}

/// The HTTP method of a planned chat request.
#[derive(Clone, Copy, Debug, PartialEq, Eq, Structural)]
pub enum HttpMethod {
    Get,
    Post,
}

/// A fully planned request against the chat platform: method, URL, the two
/// headers every call carries, and the body for a post.
#[derive(Clone, Debug)]
pub struct ChatRequest {
    pub method: HttpMethod,
    pub url: String,
    pub authorization: String,
    pub content_type: String,
    pub body: Option<String>,
}

/// The message collection of a channel.
pub open spec fn channel_messages_url(base: Seq<char>, channel_id: Seq<char>) -> Seq<char> {
    base + "/api/channels/"@ + channel_id + "/messages"@
}

/// The endpoint that creates (or looks up) a direct-message channel.
pub open spec fn dm_channels_url(base: Seq<char>) -> Seq<char> {
    base + "/api/users/@me/channels"@
}

/// The bot-token authorization header value.
pub open spec fn bot_authorization(token: Seq<char>) -> Seq<char> {
    "Bot "@ + token
}

fn build_channel_messages_url(base_url: &str, channel_id: &str) -> (r: String)
    ensures
        r@ == channel_messages_url(base_url@, channel_id@),
{
    let mut url: String = base_url.to_owned();
    url.append("/api/channels/");
    url.append(channel_id);
    url.append("/messages");
    url
}

fn build_authorization(token: &str) -> (r: String)
    ensures
        r@ == bot_authorization(token@),
{
    let mut auth: String = "Bot ".to_owned();
    auth.append(token);
    auth
}

/// Plans the authenticated post of `content` to a channel's messages.
pub fn channel_message_request(base_url: &str, token: &str, channel_id: &str, content: &str) -> (r:
    ChatRequest)
    ensures
        r.method == HttpMethod::Post,
        r.url@ == channel_messages_url(base_url@, channel_id@),
        r.authorization@ == bot_authorization(token@),
        r.content_type@ == "application/json"@,
        r.body is Some,
        r.body->0@ == message_body_text(content@),
{
    ChatRequest {
        method: HttpMethod::Post,
        url: build_channel_messages_url(base_url, channel_id),
        authorization: build_authorization(token),
        content_type: "application/json".to_owned(),
        body: Some(message_body(content)),
    }
}

/// Plans the authenticated read of a channel's messages.
pub fn channel_messages_request(base_url: &str, token: &str, channel_id: &str) -> (r: ChatRequest)
    ensures
        r.method == HttpMethod::Get,
        r.url@ == channel_messages_url(base_url@, channel_id@),
        r.authorization@ == bot_authorization(token@),
        r.content_type@ == "application/json"@,
        r.body is None,
{
    ChatRequest {
        method: HttpMethod::Get,
        url: build_channel_messages_url(base_url, channel_id),
        authorization: build_authorization(token),
        content_type: "application/json".to_owned(),
        body: None,
    }
}

/// The two-leg direct-message flow. The first leg asks the platform for the
/// user's direct-message channel; the second posts the announcement to the
/// channel id the platform returned. Both legs must succeed for the flow to
/// succeed, and the raw user id is never used as a channel id.
#[derive(Clone, Debug)]
pub struct DirectMessageFlow {
    pub base_url: String,
    pub token: String,
    pub content: String,
}

impl DirectMessageFlow {
    /// Begins the flow: keeps what the second leg will need and plans the
    /// first leg, the creation of the direct-message channel for `user_id`.
    pub fn start(base_url: &str, token: &str, user_id: &str, content: &str) -> (r: (
        DirectMessageFlow,
        ChatRequest,
    ))
        ensures
            r.1.method == HttpMethod::Post,
            r.1.url@ == dm_channels_url(base_url@),
            r.1.authorization@ == bot_authorization(token@),
            r.1.content_type@ == "application/json"@,
            r.1.body is Some,
            r.1.body->0@ == recipient_body_text(user_id@),
            r.0.base_url@ == base_url@,
            r.0.token@ == token@,
            r.0.content@ == content@,
    {
        let mut url: String = base_url.to_owned();
        url.append("/api/users/@me/channels");
        let mut body: String = "{\"recipient_id\":\"".to_owned();
        body.append(user_id);
        body.append("\"}");
        let flow = DirectMessageFlow {
            base_url: base_url.to_owned(),
            token: token.to_owned(),
            content: content.to_owned(),
        };
        let request = ChatRequest {
            method: HttpMethod::Post,
            url,
            authorization: build_authorization(token),
            content_type: "application/json".to_owned(),
            body: Some(body),
        };
        (flow, request)
    }

    /// Plans the second leg: the announcement posted to the direct-message
    /// channel the platform returned for the first leg.
    pub fn message_request(&self, dm_channel_id: &str) -> (r: ChatRequest)
        ensures
            r.method == HttpMethod::Post,
            r.url@ == channel_messages_url(self.base_url@, dm_channel_id@),
            r.authorization@ == bot_authorization(self.token@),
            r.content_type@ == "application/json"@,
            r.body is Some,
            r.body->0@ == message_body_text(self.content@),
    {
        channel_message_request(
            self.base_url.as_str(),
            self.token.as_str(),
            dm_channel_id,
            self.content.as_str(),
        )
    }
}

/// A message read back from a channel: its text, its timestamp in
/// milliseconds since the Unix epoch, and its author's username.
#[derive(Clone, Debug)]
pub struct ChatMessage {
    pub content: String,
    pub timestamp_millis: i64,
    pub author_username: String,
}

/// The message was authored by this bot.
pub open spec fn is_bot_message(m: ChatMessage) -> bool {
    m.author_username@ == "free-game-announcer"@
}

/// `i` points at the bot message the history lookup returns: a bot message
/// whose timestamp no bot message exceeds, and that no later bot message
/// ties with.
pub open spec fn is_latest_bot_index(ms: Seq<ChatMessage>, i: int) -> bool {
    &&& 0 <= i < ms.len()
    &&& is_bot_message(ms[i])
    &&& forall|j: int|
        0 <= j < ms.len() && is_bot_message(#[trigger] ms[j]) ==> ms[j].timestamp_millis
            <= ms[i].timestamp_millis
    &&& forall|j: int|
        i < j < ms.len() && is_bot_message(#[trigger] ms[j]) ==> ms[j].timestamp_millis
            < ms[i].timestamp_millis
}

/// The content of the most recent message this bot posted to the channel,
/// or nothing when the history holds no bot message. Among equal
/// timestamps the message latest in the history wins.
pub fn get_last_posted_message(messages: &Vec<ChatMessage>) -> (r: Option<String>)
    ensures
        r is Some <==> exists|i: int|
            0 <= i < messages@.len() && is_bot_message(#[trigger] messages@[i]),
        r is Some ==> exists|i: int|
            #[trigger] is_latest_bot_index(messages@, i) && r->0@ == messages@[i].content@,
{
    let mut best: Option<usize> = None;
    let mut i: usize = 0;
    while i < messages.len()
        invariant
            i <= messages.len(),
            best is None ==> forall|k: int|
                0 <= k < i ==> !is_bot_message(#[trigger] messages@[k]),
            best is Some ==> {
                let b = best->0 as int;
                &&& 0 <= b < i
                &&& is_bot_message(messages@[b])
                &&& forall|k: int|
                    0 <= k < i && is_bot_message(#[trigger] messages@[k])
                        ==> messages@[k].timestamp_millis <= messages@[b].timestamp_millis
                &&& forall|k: int|
                    b < k < i && is_bot_message(#[trigger] messages@[k])
                        ==> messages@[k].timestamp_millis < messages@[b].timestamp_millis
            },
        decreases messages.len() - i,
    {
        if crate::str_eq(messages[i].author_username.as_str(), "free-game-announcer") {
            match best {
                None => {
                    best = Some(i);
                },
                Some(b) => {
                    if messages[i].timestamp_millis >= messages[b].timestamp_millis {
                        best = Some(i);
                    }
                },
            }
        }
        i = i + 1;
    }
    match best {
        None => None,
        Some(b) => {
            proof {
                assert(is_latest_bot_index(messages@, b as int));
            }
            Some(messages[b].content.clone())
        },
    }
}

} // verus!
