//! The node's configuration, read from the values of environment variables, and the settings
//! for outgoing traffic that are fixed once per run.
use vstd::prelude::*;
use crate::model::{NodeInfo, NodeView};
use crate::text::{
    concat, eq_ignoring_ascii_case, find, find_from, is_blank, is_char, lemma_find_from,
    parse_decimal, parse_number, same, same_ignoring_ascii_case, split_by, split_char, trim,
    trimmed,
};

verus! {

/// The settings for outgoing traffic. Each can be set once; a later attempt changes nothing.
#[derive(Debug)]
pub struct OutboundSettings {
    proxy: Option<String>,
    cookies: Option<String>,
}

impl OutboundSettings {
    /// The proxy that was set.
    pub closed spec fn proxy(&self) -> Option<Seq<char>> {
        self.proxy.deep_view()
    }

    /// The cookie file that was set.
    pub closed spec fn cookies(&self) -> Option<Seq<char>> {
        self.cookies.deep_view()
    }

    /// Settings with nothing set.
    pub fn new() -> (r: Self)
        ensures
            r.proxy() is None,
            r.cookies() is None,
    {
        OutboundSettings { proxy: None, cookies: None }
    }
}

/// What a slot that can be filled once holds after an attempt to fill it.
pub open spec fn filled_once(slot: Option<Seq<char>>, value: Seq<char>) -> Option<Seq<char>> {
    if slot is Some {
        slot
    } else {
        Some(value)
    }
}

/// Sets the proxy, unless it is set already.
pub fn init_proxy(settings: &mut OutboundSettings, url: String)
    ensures
        final(settings).proxy() == filled_once(old(settings).proxy(), url@),
        final(settings).cookies() == old(settings).cookies(),
{
    if settings.proxy.is_none() {
        settings.proxy = Some(url);
    }
}

/// Sets the cookie file, unless it is set already.
pub fn init_yt_cookies(settings: &mut OutboundSettings, path: String)
    ensures
        final(settings).cookies() == filled_once(old(settings).cookies(), path@),
        final(settings).proxy() == old(settings).proxy(),
{
    if settings.cookies.is_none() {
        settings.cookies = Some(path);
    }
}

/// The proxy, if one is set.
pub fn proxy_url(settings: &OutboundSettings) -> (r: Option<&str>)
    ensures
        r.deep_view() == settings.proxy(),
{
    match &settings.proxy {
        Some(url) => Some(url.as_str()),
        None => None,
    }
}

/// The cookie file, if one is set.
pub fn yt_cookies_file(settings: &OutboundSettings) -> (r: Option<&str>)
    ensures
        r.deep_view() == settings.cookies(),
{
    match &settings.cookies {
        Some(path) => Some(path.as_str()),
        None => None,
    }
}

/// Where the part after the scheme starts: behind `://`, or at the start if there is none.
pub open spec fn scheme_end(base: Seq<char>) -> int {
    match find_from(base, "://"@, 0) {
        Some(i) => i + 3,
        None => 0,
    }
}

/// The proxy's address with a session in its user name: behind the scheme, the session is put
/// in before the first colon. An address without such a colon stays as it is.
pub open spec fn sticky_proxy(base: Seq<char>, session_id: Seq<char>) -> Seq<char> {
    let start = scheme_end(base);
    match find_from(base.skip(start), ":"@, 0) {
        Some(k) => base.take(start + k) + "-session-"@ + session_id + "-sessionduration-10"@
            + base.skip(start + k),
        None => base,
    }
}

/// The proxy's address for one session, if a proxy is set.
pub fn sticky_proxy_url(settings: &OutboundSettings, session_id: &str) -> (r: Option<String>)
    ensures
        r.deep_view() == (match settings.proxy() {
            Some(base) => Some(sticky_proxy(base, session_id@)),
            None => None,
        }),
{
    match &settings.proxy {
        Some(base) => Some(with_session(base.as_str(), session_id)),
        None => None,
    }
}

/// The proxy's address with a session in its user name.
fn with_session(base: &str, session_id: &str) -> (r: String)
    ensures
        r@ == sticky_proxy(base@, session_id@),
{
    proof {
        reveal_strlit("://");
        reveal_strlit(":");
    }
    let total: usize = base.unicode_len();
    let start: usize = match find(base, "://") {
        Some(i) => i + 3,
        None => 0,
    };
    let rest = base.substring_char(start, total);
    assert(rest@ =~= base@.skip(start as int));
    match find(rest, ":") {
        Some(k) => {
            let split_at: usize = start + k;
            let mut out = String::from_str(base.substring_char(0, split_at));
            out.append("-session-");
            out.append(session_id);
            out.append("-sessionduration-10");
            out.append(base.substring_char(split_at, total));
            assert(base@.subrange(0, split_at as int) =~= base@.take(split_at as int));
            assert(base@.subrange(split_at as int, total as int) =~= base@.skip(split_at as int));
            out
        },
        None => String::from_str(base),
    }
}

/// The values of the environment variables that configure the node; `None` for a variable
/// that is not set.
#[derive(Debug)]
pub struct Environment {
    /// `ASTRALINK_HTTP_ADDR`
    pub http_addr: Option<String>,
    /// `ASTRALINK_AUDIO_ADDR`
    pub audio_addr: Option<String>,
    /// `ASTRALINK_TOKEN`
    pub token: Option<String>,
    /// `ASTRALINK_SPOTIFY_CLIENT_ID`
    pub spotify_client_id: Option<String>,
    /// `ASTRALINK_SPOTIFY_CLIENT_SECRET`
    pub spotify_client_secret: Option<String>,
    /// `ASTRALINK_SOUNDCLOUD_CLIENT_ID`
    pub soundcloud_client_id: Option<String>,
    /// `ASTRALINK_PROXIES`
    pub proxies: Option<String>,
    /// `REDIS_URL`
    pub redis_url: Option<String>,
    /// `NODE_ID`
    pub node_id: Option<String>,
    /// `MAX_GUILDS_PER_NODE`
    pub max_guilds_per_node: Option<String>,
    /// `NODE_HOST`
    pub node_host: Option<String>,
    /// `ASTRALINK_IPV6_DETECTION`
    pub ipv6_detection: Option<String>,
    /// `ASTRALINK_PROXY_URL`
    pub proxy_url: Option<String>,
    /// `ASTRALINK_YT_COOKIES_FILE`
    pub yt_cookies_file: Option<String>,
}

/// The configuration of a node. `A` is the type of a socket address.
#[derive(Debug, Clone)]
pub struct AstralinkConfig<A> {
    pub http_addr: A,
    pub audio_addr: A,
    pub token: String,
    pub spotify_client_id: Option<String>,
    pub spotify_client_secret: Option<String>,
    pub soundcloud_client_id: Option<String>,
    pub proxies: Vec<String>,
    pub redis_url: String,
    pub node_id: String,
    pub max_guilds_per_node: usize,
    pub node_host: Option<String>,
    pub ipv6_detection: bool,
    pub proxy_url: Option<String>,
    pub yt_cookies_file: Option<String>,
}

/// Why there is no configuration.
#[derive(Debug)]
pub enum ConfigError {
    MissingToken,
    InvalidHttpAddr(String),
    InvalidAudioAddr(String),
}

impl ConfigError {
    /// The message that a person reads.
    pub open spec fn text(&self) -> Seq<char> {
        match self {
            ConfigError::MissingToken => "invalid or missing ASTRALINK_TOKEN"@,
            ConfigError::InvalidHttpAddr(addr) => "invalid HTTP listen addr: "@ + addr@,
            ConfigError::InvalidAudioAddr(addr) => "invalid audio listen addr: "@ + addr@,
        }
    }

    /// The message that a person reads.
    pub fn message(&self) -> (r: String)
        ensures
            r@ == self.text(),
    {
        match self {
            ConfigError::MissingToken => String::from_str("invalid or missing ASTRALINK_TOKEN"),
            ConfigError::InvalidHttpAddr(addr) => concat("invalid HTTP listen addr: ", addr),
            ConfigError::InvalidAudioAddr(addr) => concat("invalid audio listen addr: ", addr),
        }
    }
}

/// The text of a variable, or a default where it is not set.
pub open spec fn text_or(value: Option<Seq<char>>, default: Seq<char>) -> Seq<char> {
    match value {
        Some(t) => t,
        None => default,
    }
}

/// The address to listen on for requests, as it was given.
pub open spec fn http_listen(env: Environment) -> Seq<char> {
    text_or(env.http_addr.deep_view(), "0.0.0.0:9000"@)
}

/// The address to listen on for audio connections, as it was given.
pub open spec fn audio_listen(env: Environment) -> Seq<char> {
    text_or(env.audio_addr.deep_view(), "0.0.0.0:9001"@)
}

/// The proxies of a comma-separated list: its trimmed entries that are not empty.
pub open spec fn proxy_list(value: Option<Seq<char>>) -> Seq<Seq<char>> {
    match value {
        Some(t) => split_by(t, is_char(',')).map_values(|raw: Seq<char>| trimmed(raw)).filter(
            |entry: Seq<char>| entry.len() > 0,
        ),
        None => Seq::empty(),
    }
}

/// The number of guilds that the node takes: what was given, or 100 where nothing or no
/// number was given.
pub open spec fn guild_limit(value: Option<Seq<char>>) -> nat {
    match value {
        Some(t) => match parse_decimal(t, usize::MAX as nat) {
            Some(n) => n,
            None => 100,
        },
        None => 100,
    }
}

/// A switch is on if its text is `1` or, in any case, `true`.
pub open spec fn switched_on(value: Option<Seq<char>>) -> bool {
    match value {
        Some(t) => eq_ignoring_ascii_case(t, "true"@) || t == "1"@,
        None => false,
    }
}

/// A text that is not blank, as it was given.
pub open spec fn unless_blank(value: Option<Seq<char>>) -> Option<Seq<char>> {
    match value {
        Some(t) => if trimmed(t).len() > 0 {
            Some(t)
        } else {
            None
        },
        None => None,
    }
}

/// The node's identifier: the one given, else the trimmed output of `hostname`, else
/// `default`.
pub open spec fn node_name(value: Option<Seq<char>>, hostname: Option<Seq<char>>) -> Seq<char> {
    match (value, hostname) {
        (Some(t), _) => t,
        (None, Some(h)) => trimmed(h),
        (None, None) => "default"@,
    }
}

impl Environment {
    /// The address to listen on for requests, as it was given.
    pub fn http_listen_addr(&self) -> (r: String)
        ensures
            r@ == http_listen(*self),
    {
        match &self.http_addr {
            Some(t) => t.clone(),
            None => String::from_str("0.0.0.0:9000"),
        }
    }

    /// The address to listen on for audio connections, as it was given.
    pub fn audio_listen_addr(&self) -> (r: String)
        ensures
            r@ == audio_listen(*self),
    {
        match &self.audio_addr {
            Some(t) => t.clone(),
            None => String::from_str("0.0.0.0:9001"),
        }
    }
}

/// The proxies of a comma-separated list.
fn parse_proxies(value: &str) -> (r: Vec<String>)
    ensures
        r.deep_view() == proxy_list(Some(value@)),
{
    let pieces = split_char(value, ',');
    let ghost clip = |raw: Seq<char>| trimmed(raw);
    let ghost keep = |entry: Seq<char>| entry.len() > 0;
    let ghost all = pieces.deep_view().map_values(clip);
    let mut out: Vec<String> = Vec::new();
    for i in 0..pieces.len()
        invariant
            clip == (|raw: Seq<char>| trimmed(raw)),
            keep == (|entry: Seq<char>| entry.len() > 0),
            all == pieces.deep_view().map_values(clip),
            out.deep_view() == all.take(i as int).filter(keep),
    {
        let ghost before = out.deep_view();
        let entry = trim(&pieces[i]);
        proof {
            reveal(Seq::filter);
            assert(all.take(i + 1).drop_last() =~= all.take(i as int));
            assert(all.take(i + 1).last() == entry@);
        }
        if !entry.as_str().is_empty() {
            out.push(entry);
            assert(out.deep_view() =~= before.push(entry@));
        }
    }
    assert(all.take(all.len() as int) =~= all);
    out
}

/// The value, unless it is blank.
fn drop_blank(value: Option<String>) -> (r: Option<String>)
    ensures
        r.deep_view() == unless_blank(value.deep_view()),
{
    match value {
        Some(t) => if is_blank(&t) {
            None
        } else {
            Some(t)
        },
        None => None,
    }
}

impl<A> AstralinkConfig<A> {
    /// The configuration holds what the environment and the host's name give.
    pub open spec fn holds(&self, env: Environment, hostname: Option<Seq<char>>) -> bool {
        &&& Some(self.token@) == env.token.deep_view()
        &&& self.spotify_client_id.deep_view() == env.spotify_client_id.deep_view()
        &&& self.spotify_client_secret.deep_view() == env.spotify_client_secret.deep_view()
        &&& self.soundcloud_client_id.deep_view() == env.soundcloud_client_id.deep_view()
        &&& self.proxies.deep_view() == proxy_list(env.proxies.deep_view())
        &&& self.redis_url@ == text_or(env.redis_url.deep_view(), "redis://localhost:6379"@)
        &&& self.node_id@ == node_name(env.node_id.deep_view(), hostname)
        &&& self.max_guilds_per_node == guild_limit(env.max_guilds_per_node.deep_view())
        &&& self.node_host.deep_view() == env.node_host.deep_view()
        &&& self.ipv6_detection == switched_on(env.ipv6_detection.deep_view())
        &&& self.proxy_url.deep_view() == unless_blank(env.proxy_url.deep_view())
        &&& self.yt_cookies_file.deep_view() == unless_blank(env.yt_cookies_file.deep_view())
    }

    /// The configuration that the environment gives.
    ///
    /// `http_addr` and `audio_addr` are the socket addresses that the two listen texts denote,
    /// `None` where a text denotes none. `hostname` is what the command `hostname` printed,
    /// `None` where it could not be run.
    pub fn from_env(
        env: Environment,
        http_addr: Option<A>,
        audio_addr: Option<A>,
        hostname: Option<String>,
    ) -> (r: Result<Self, ConfigError>)
        ensures
            match r {
                Err(ConfigError::InvalidHttpAddr(t)) => http_addr is None && t@ == http_listen(env),
                Err(ConfigError::InvalidAudioAddr(t)) => http_addr is Some && audio_addr is None
                    && t@ == audio_listen(env),
                Err(ConfigError::MissingToken) => http_addr is Some && audio_addr is Some
                    && env.token is None,
                Ok(config) => {
                    &&& http_addr == Some(config.http_addr)
                    &&& audio_addr == Some(config.audio_addr)
                    &&& config.holds(env, hostname.deep_view())
                },
            },
    {
        let http_text = env.http_listen_addr();
        let audio_text = env.audio_listen_addr();
        let http_addr = match http_addr {
            Some(a) => a,
            None => {
                return Err(ConfigError::InvalidHttpAddr(http_text));
            },
        };
        let audio_addr = match audio_addr {
            Some(a) => a,
            None => {
                return Err(ConfigError::InvalidAudioAddr(audio_text));
            },
        };
        let token = match env.token {
            Some(t) => t,
            None => {
                return Err(ConfigError::MissingToken);
            },
        };
        let proxies = match &env.proxies {
            Some(t) => parse_proxies(t),
            None => Vec::new(),
        };
        assert(proxies.deep_view() =~= proxy_list(env.proxies.deep_view()));
        let redis_url = match env.redis_url {
            Some(t) => t,
            None => String::from_str("redis://localhost:6379"),
        };
        let node_id = match env.node_id {
            Some(t) => t,
            None => match &hostname {
                Some(h) => trim(h),
                None => String::from_str("default"),
            },
        };
        let max_guilds_per_node: usize = match &env.max_guilds_per_node {
            Some(t) => match parse_number(t, usize::MAX as u64) {
                Some(n) => n as usize,
                None => 100,
            },
            None => 100,
        };
        let ipv6_detection = match &env.ipv6_detection {
            Some(t) => same_ignoring_ascii_case(t, "true") || same(t, "1"),
            None => false,
        };
        Ok(
            AstralinkConfig {
                http_addr,
                audio_addr,
                token,
                spotify_client_id: env.spotify_client_id,
                spotify_client_secret: env.spotify_client_secret,
                soundcloud_client_id: env.soundcloud_client_id,
                proxies,
                redis_url,
                node_id,
                max_guilds_per_node,
                node_host: env.node_host,
                ipv6_detection,
                proxy_url: drop_blank(env.proxy_url),
                yt_cookies_file: drop_blank(env.yt_cookies_file),
            },
        )
    }

    /// What the node says of itself when it starts: all its slots are free.
    pub fn node_info(&self, http_port: u16, audio_port: u16) -> (r: NodeInfo)
        ensures
            r@ == (NodeView {
                id: self.node_id@,
                host: text_or(self.node_host.deep_view(), "0.0.0.0"@),
                http_port,
                audio_port,
                available_slots: self.max_guilds_per_node,
                total_slots: self.max_guilds_per_node,
            }),
    {
        NodeInfo {
            id: self.node_id.clone(),
            host: match &self.node_host {
                Some(h) => h.clone(),
                None => String::from_str("0.0.0.0"),
            },
            http_port,
            audio_port,
            available_slots: self.max_guilds_per_node,
            total_slots: self.max_guilds_per_node,
        }
    }
}

/// A setting that was made stays: a second attempt changes nothing.
pub proof fn law_settings_are_made_once(
    slot: Option<Seq<char>>,
    first: Seq<char>,
    second: Seq<char>,
)
    ensures
        filled_once(filled_once(slot, first), second) == filled_once(slot, first),
        slot is None ==> filled_once(slot, first) == Some(first),
{
}

/// The session is put in between two parts of the proxy's address; without it the address is
/// whole again.
pub proof fn law_session_is_put_in(base: Seq<char>, session_id: Seq<char>)
    ensures
        sticky_proxy(base, session_id) == base || exists|at: int|
            0 <= at <= base.len() && #[trigger] sticky_proxy(base, session_id).take(at)
                == base.take(at) && sticky_proxy(base, session_id).skip(
                sticky_proxy(base, session_id).len() - (base.len() - at),
            ) == base.skip(at),
{
    let start = scheme_end(base);
    lemma_find_from(base, "://"@, 0);
    reveal_strlit("://");
    reveal_strlit(":");
    lemma_find_from(base.skip(start), ":"@, 0);
    if let Some(k) = find_from(base.skip(start), ":"@, 0) {
        let at = start + k;
        let sticky = sticky_proxy(base, session_id);
        assert(sticky.take(at) =~= base.take(at));
        assert(sticky.skip(sticky.len() - (base.len() - at)) =~= base.skip(at));
    }
}

} // verus!
