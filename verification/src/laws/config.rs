//! Laws of the configuration and of the settings for outgoing traffic.
use vstd::prelude::*;
use crate::config::{
    init_proxy, init_yt_cookies, proxy_url, sticky_proxy_url, yt_cookies_file, AstralinkConfig,
    ConfigError, Environment, OutboundSettings,
};
use crate::laws::text::{joined, law_pieces_join};
use crate::model::NodeInfo;
use crate::text::{
    eq_ignoring_ascii_case, find_from, has_text, is_char, lemma_find_from, occurs_at, parse_decimal,
    split_by, trimmed,
};

verus! {

/// The first proxy that is set is the one that is read from then on, whatever is set later, and
/// setting it does not touch the cookie file; nor the other way round.
pub proof fn law_first_setting_wins(
    settings: &mut OutboundSettings,
    url: String,
    path: String,
    proxied: &mut OutboundSettings,
    proxy: Option<&str>,
    cookies: Option<&str>,
)
    requires
        call_ensures(init_proxy, (settings, url), ()),
        call_ensures(init_yt_cookies, (proxied, path), ()),
        *old(proxied) == *final(settings),
        call_ensures(proxy_url, (&*final(proxied),), proxy),
        call_ensures(yt_cookies_file, (&*final(proxied),), cookies),
    ensures
        proxy is Some && cookies is Some,
        old(settings).proxy() is None ==> proxy->0@ == url@,
        old(settings).proxy() is Some ==> Some(proxy->0@) == old(settings).proxy(),
        old(settings).cookies() is None ==> cookies->0@ == path@,
        old(settings).cookies() is Some ==> Some(cookies->0@) == old(settings).cookies(),
        final(settings).cookies() == old(settings).cookies(),
        final(proxied).proxy() == old(proxied).proxy(),
{
}

/// At the start nothing is set, and there is no proxy for any session.
pub proof fn law_nothing_is_set_at_first(
    settings: OutboundSettings,
    proxy: Option<&str>,
    cookies: Option<&str>,
    session_id: &str,
    sticky: Option<String>,
)
    requires
        call_ensures(OutboundSettings::new, (), settings),
        call_ensures(proxy_url, (&settings,), proxy),
        call_ensures(yt_cookies_file, (&settings,), cookies),
        call_ensures(sticky_proxy_url, (&settings, session_id), sticky),
    ensures
        proxy is None,
        cookies is None,
        sticky is None,
{
}

/// The session goes into the user name of the proxy's address: behind the scheme, where there is
/// one, and before the first colon that follows.
pub proof fn law_session_goes_into_the_user_name(
    settings: &OutboundSettings,
    session_id: &str,
    scheme: Seq<char>,
    user: Seq<char>,
    rest: Seq<char>,
    r: Option<String>,
)
    requires
        call_ensures(sticky_proxy_url, (settings, session_id), r),
        ({
            let with_scheme = scheme + "://"@ + user + ":"@ + rest;
            ||| settings.proxy() == Some(with_scheme) && forall|j: int|
                0 <= j < scheme.len() ==> !occurs_at(with_scheme, "://"@, j)
            ||| scheme.len() == 0 && settings.proxy() == Some(user + ":"@ + rest) && !has_text(
                user + ":"@ + rest,
                "://"@,
            )
        }),
        !user.contains(':'),
    ensures
        r is Some,
        ({
            let front = if settings.proxy() == Some(user + ":"@ + rest) && !has_text(
                user + ":"@ + rest,
                "://"@,
            ) {
                user
            } else {
                scheme + "://"@ + user
            };
            r->0@ == front + "-session-"@ + session_id@ + "-sessionduration-10"@ + ":"@ + rest
        }),
{
    reveal_strlit("://");
    reveal_strlit(":");
    let base = settings.proxy()->0;
    let plain = base == user + ":"@ + rest && !has_text(base, "://"@);
    lemma_find_from(base, "://"@, 0);
    let start: int = if plain {
        0
    } else {
        (scheme.len() + 3) as int
    };
    if plain {
        if let Some(i) = find_from(base, "://"@, 0) {
            assert(occurs_at(base, "://"@, i));
        }
    } else {
        assert(base.subrange(scheme.len() as int, scheme.len() as int + 3) =~= "://"@);
        assert(occurs_at(base, "://"@, scheme.len() as int));
        assert(find_from(base, "://"@, 0) == Some(scheme.len() as int));
    }
    let tail = base.skip(start);
    assert(tail =~= user + ":"@ + rest);
    lemma_find_from(tail, ":"@, 0);
    assert(tail.subrange(user.len() as int, user.len() as int + 1) =~= ":"@);
    assert(occurs_at(tail, ":"@, user.len() as int));
    assert forall|j: int| 0 <= j < user.len() implies !occurs_at(tail, ":"@, j) by {
        if occurs_at(tail, ":"@, j) {
            assert(tail.subrange(j, j + 1)[0] == ':');
            assert(user[j] == ':');
        }
    }
    assert(find_from(tail, ":"@, 0) == Some(user.len() as int));
    let at = start + user.len();
    assert(base.skip(at) =~= ":"@ + rest);
    if plain {
        assert(base.take(at) =~= user);
    } else {
        assert(base.take(at) =~= scheme + "://"@ + user);
    }
    let front = base.take(at);
    assert(r->0@ =~= front + "-session-"@ + session_id@ + "-sessionduration-10"@ + ":"@ + rest);
}

/// A proxy's address without a colon behind its scheme is used as it is.
pub proof fn law_address_without_a_user_stays(
    settings: &OutboundSettings,
    session_id: &str,
    scheme: Seq<char>,
    host: Seq<char>,
    r: Option<String>,
)
    requires
        call_ensures(sticky_proxy_url, (settings, session_id), r),
        ({
            let with_scheme = scheme + "://"@ + host;
            ||| settings.proxy() == Some(with_scheme) && forall|j: int|
                0 <= j < scheme.len() ==> !occurs_at(with_scheme, "://"@, j)
            ||| settings.proxy() == Some(host)
        }),
        !host.contains(':'),
    ensures
        r is Some && Some(r->0@) == settings.proxy(),
{
    reveal_strlit("://");
    reveal_strlit(":");
    let base = settings.proxy()->0;
    lemma_find_from(base, "://"@, 0);
    if base == host {
        if let Some(i) = find_from(base, "://"@, 0) {
            assert(base.subrange(i, i + 3)[0] == ':');
            assert(host[i] == ':');
        }
        assert(base.skip(0) =~= host);
    } else {
        assert(base.subrange(scheme.len() as int, scheme.len() as int + 3) =~= "://"@);
        assert(occurs_at(base, "://"@, scheme.len() as int));
        assert(find_from(base, "://"@, 0) == Some(scheme.len() as int));
        assert(base.skip(scheme.len() as int + 3) =~= host);
    }
    lemma_find_from(host, ":"@, 0);
    if let Some(k) = find_from(host, ":"@, 0) {
        assert(host.subrange(k, k + 1)[0] == ':');
        assert(host[k] == ':');
    }
}

/// The addresses to listen on are those given, or the ports 9000 and 9001 on all interfaces.
pub proof fn law_listen_addresses(env: &Environment, http: String, audio: String)
    requires
        call_ensures(Environment::http_listen_addr, (env,), http),
        call_ensures(Environment::audio_listen_addr, (env,), audio),
    ensures
        env.http_addr is Some ==> http@ == env.http_addr->0@,
        env.http_addr is None ==> http@ == "0.0.0.0:9000"@,
        env.audio_addr is Some ==> audio@ == env.audio_addr->0@,
        env.audio_addr is None ==> audio@ == "0.0.0.0:9001"@,
{
}

/// There is a configuration exactly if both addresses to listen on are addresses and a token is
/// given; else the first of these that is missing is the error, with the text that is no address.
pub proof fn law_when_there_is_a_configuration<A>(
    env: Environment,
    http_addr: Option<A>,
    audio_addr: Option<A>,
    hostname: Option<String>,
    http: String,
    audio: String,
    r: Result<AstralinkConfig<A>, ConfigError>,
)
    requires
        call_ensures(
            AstralinkConfig::<A>::from_env,
            (env, http_addr, audio_addr, hostname),
            r,
        ),
        call_ensures(Environment::http_listen_addr, (&env,), http),
        call_ensures(Environment::audio_listen_addr, (&env,), audio),
    ensures
        r is Ok <==> http_addr is Some && audio_addr is Some && env.token is Some,
        http_addr is None ==> r is Err && r->Err_0 is InvalidHttpAddr
            && r->Err_0->InvalidHttpAddr_0@ == http@,
        http_addr is Some && audio_addr is None ==> r is Err && r->Err_0 is InvalidAudioAddr
            && r->Err_0->InvalidAudioAddr_0@ == audio@,
        http_addr is Some && audio_addr is Some && env.token is None ==> r is Err && r->Err_0
            is MissingToken,
{
}

/// The configuration holds what was given: the addresses, the token, the identifiers and secrets,
/// the host and the number of guilds; without them Redis is on this machine, the node is named
/// after the machine, or `default`, and takes 100 guilds.
pub proof fn law_configuration_holds_what_was_given<A>(
    env: Environment,
    http_addr: Option<A>,
    audio_addr: Option<A>,
    hostname: Option<String>,
    config: AstralinkConfig<A>,
)
    requires
        call_ensures(
            AstralinkConfig::<A>::from_env,
            (env, http_addr, audio_addr, hostname),
            Ok::<AstralinkConfig<A>, ConfigError>(config),
        ),
    ensures
        http_addr == Some(config.http_addr),
        audio_addr == Some(config.audio_addr),
        env.token is Some && config.token@ == env.token->0@,
        config.spotify_client_id.deep_view() == env.spotify_client_id.deep_view(),
        config.spotify_client_secret.deep_view() == env.spotify_client_secret.deep_view(),
        config.soundcloud_client_id.deep_view() == env.soundcloud_client_id.deep_view(),
        config.node_host.deep_view() == env.node_host.deep_view(),
        env.redis_url is Some ==> config.redis_url@ == env.redis_url->0@,
        env.redis_url is None ==> config.redis_url@ == "redis://localhost:6379"@,
        env.node_id is Some ==> config.node_id@ == env.node_id->0@,
        env.node_id is None && hostname is Some ==> config.node_id@ == trimmed(hostname->0@),
        env.node_id is None && hostname is None ==> config.node_id@ == "default"@,
        env.max_guilds_per_node is None ==> config.max_guilds_per_node == 100,
        env.max_guilds_per_node is Some ==> match parse_decimal(
            env.max_guilds_per_node->0@,
            usize::MAX as nat,
        ) {
            Some(n) => config.max_guilds_per_node == n,
            None => config.max_guilds_per_node == 100,
        },
{
}

/// The detection of addresses is switched on by `1` and by `true` in any case, and by nothing
/// else; a proxy or cookie file is taken as it was given unless it is blank.
pub proof fn law_switches_and_blanks<A>(
    env: Environment,
    http_addr: Option<A>,
    audio_addr: Option<A>,
    hostname: Option<String>,
    config: AstralinkConfig<A>,
)
    requires
        call_ensures(
            AstralinkConfig::<A>::from_env,
            (env, http_addr, audio_addr, hostname),
            Ok::<AstralinkConfig<A>, ConfigError>(config),
        ),
    ensures
        config.ipv6_detection <==> env.ipv6_detection is Some && (env.ipv6_detection->0@ == "1"@
            || eq_ignoring_ascii_case(env.ipv6_detection->0@, "true"@)),
        config.proxy_url is Some <==> env.proxy_url is Some && trimmed(
            env.proxy_url->0@,
        ).len() > 0,
        config.proxy_url is Some ==> config.proxy_url->0@ == env.proxy_url->0@,
        config.yt_cookies_file is Some <==> env.yt_cookies_file is Some && trimmed(
            env.yt_cookies_file->0@,
        ).len() > 0,
        config.yt_cookies_file is Some ==> config.yt_cookies_file->0@ == env.yt_cookies_file->0@,
{
}

/// The proxies of a list without a comma: the trimmed text, unless it is blank.
pub open spec fn sole_proxy(text: Seq<char>) -> Seq<Seq<char>> {
    if trimmed(text).len() == 0 {
        Seq::empty()
    } else {
        seq![trimmed(text)]
    }
}

/// The proxies of the pieces one after the other.
pub open spec fn proxies_of(pieces: Seq<Seq<char>>) -> Seq<Seq<char>>
    decreases pieces.len(),
{
    if pieces.len() == 0 {
        Seq::empty()
    } else {
        proxies_of(pieces.drop_last()) + sole_proxy(pieces.last())
    }
}

proof fn lemma_proxies_of(pieces: Seq<Seq<char>>)
    ensures
        pieces.map_values(|raw: Seq<char>| trimmed(raw)).filter(
            |entry: Seq<char>| entry.len() > 0,
        ) == proxies_of(pieces),
    decreases pieces.len(),
{
    reveal(Seq::filter);
    let clip = |raw: Seq<char>| trimmed(raw);
    let keep = |entry: Seq<char>| entry.len() > 0;
    let all = pieces.map_values(clip);
    if pieces.len() > 0 {
        lemma_proxies_of(pieces.drop_last());
        assert(all.drop_last() =~= pieces.drop_last().map_values(clip));
        assert(all.last() == trimmed(pieces.last()));
        assert(all.filter(keep) =~= proxies_of(pieces));
    } else {
        assert(all.filter(keep) =~= proxies_of(pieces));
    }
}

/// The listed proxies are the entries between the commas, trimmed and in their order, without
/// those that are blank.
pub proof fn law_listed_proxies<A>(
    env: Environment,
    http_addr: Option<A>,
    audio_addr: Option<A>,
    hostname: Option<String>,
    config: AstralinkConfig<A>,
)
    requires
        call_ensures(
            AstralinkConfig::<A>::from_env,
            (env, http_addr, audio_addr, hostname),
            Ok::<AstralinkConfig<A>, ConfigError>(config),
        ),
    ensures
        env.proxies is None ==> config.proxies@.len() == 0,
        env.proxies is Some ==> exists|pieces: Seq<Seq<char>>|
            #![trigger proxies_of(pieces)]
            {
                &&& pieces.len() > 0
                &&& joined(pieces, ',') == env.proxies->0@
                &&& forall|i: int| 0 <= i < pieces.len() ==> !(#[trigger] pieces[i]).contains(',')
                &&& config.proxies.deep_view() == proxies_of(pieces)
            },
{
    if env.proxies is Some {
        let text = env.proxies->0@;
        let pieces = split_by(text, is_char(','));
        law_pieces_join(text, ',');
        lemma_proxies_of(pieces);
        assert(config.proxies.deep_view() == proxies_of(pieces));
    } else {
        assert(config.proxies.deep_view().len() == 0);
    }
}

/// A node that starts says who it is, where it listens, and that all its slots are free; without
/// a host it is reached on all interfaces.
pub proof fn law_node_info<A>(
    config: &AstralinkConfig<A>,
    http_port: u16,
    audio_port: u16,
    r: NodeInfo,
)
    requires
        call_ensures(AstralinkConfig::<A>::node_info, (config, http_port, audio_port), r),
    ensures
        r.id@ == config.node_id@,
        config.node_host is Some ==> r.host@ == config.node_host->0@,
        config.node_host is None ==> r.host@ == "0.0.0.0"@,
        r.http_port == http_port,
        r.audio_port == audio_port,
        r.available_slots == config.max_guilds_per_node,
        r.total_slots == config.max_guilds_per_node,
{
}

/// The message of an error says what is wrong and names the address that is no address.
pub proof fn law_config_messages(err: &ConfigError, r: String)
    requires
        call_ensures(ConfigError::message, (err,), r),
    ensures
        err is MissingToken ==> r@ == "invalid or missing ASTRALINK_TOKEN"@,
        err is InvalidHttpAddr ==> r@ == "invalid HTTP listen addr: "@ + err->InvalidHttpAddr_0@,
        err is InvalidAudioAddr ==> r@ == "invalid audio listen addr: "@
            + err->InvalidAudioAddr_0@,
{
}

} // verus!
