//! Command lines for the programs that fetch and convert audio.
use vstd::prelude::*;

verus! {

/// Adds an argument.
pub fn push_arg(args: &mut Vec<String>, arg: &str)
    ensures
        final(args).deep_view() == old(args).deep_view().push(arg@),
{
    let ghost before = args.deep_view();
    args.push(String::from_str(arg));
    assert(args.deep_view() =~= before.push(arg@));
}

/// The arguments that name the cookie file.
pub open spec fn cookie_args(cookies: Option<Seq<char>>) -> Seq<Seq<char>> {
    match cookies {
        Some(path) => seq!["--cookies"@, path],
        None => Seq::empty(),
    }
}

/// The arguments that choose the way out: the proxy if there is one, else the source address
/// if there is one.
pub open spec fn route_args(proxy: Option<Seq<char>>, source: Option<Seq<char>>) -> Seq<Seq<char>> {
    match (proxy, source) {
        (Some(url), _) => seq!["--proxy"@, url],
        (None, Some(addr)) => seq!["--force-ipv6"@, "--source-address"@, addr],
        (None, None) => Seq::empty(),
    }
}

/// Adds the arguments that name the cookie file.
pub fn push_cookies(args: &mut Vec<String>, cookies: Option<&str>)
    ensures
        final(args).deep_view() == old(args).deep_view() + cookie_args(cookies.deep_view()),
{
    let ghost before = args.deep_view();
    if let Some(path) = cookies {
        push_arg(args, "--cookies");
        push_arg(args, path);
    }
    assert(args.deep_view() =~= before + cookie_args(cookies.deep_view()));
}

/// Adds the arguments that choose the way out.
pub fn push_route(args: &mut Vec<String>, proxy: Option<&str>, source: Option<&str>)
    ensures
        final(args).deep_view() == old(args).deep_view() + route_args(
            proxy.deep_view(),
            source.deep_view(),
        ),
{
    let ghost before = args.deep_view();
    if let Some(url) = proxy {
        push_arg(args, "--proxy");
        push_arg(args, url);
    } else if let Some(addr) = source {
        push_arg(args, "--force-ipv6");
        push_arg(args, "--source-address");
        push_arg(args, addr);
    }
    assert(args.deep_view() =~= before + route_args(proxy.deep_view(), source.deep_view()));
}

} // verus!
