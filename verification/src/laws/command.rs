//! Laws of the command lines.
use vstd::prelude::*;
use crate::command::{push_arg, push_cookies, push_route};

verus! {

/// An argument goes to the end of the others.
pub proof fn law_push_arg(args: &mut Vec<String>, arg: &str)
    requires
        call_ensures(push_arg, (args, arg), ()),
    ensures
        final(args)@.len() == old(args)@.len() + 1,
        final(args).deep_view() == old(args).deep_view().push(arg@),
{
    assert(final(args).deep_view().len() == old(args).deep_view().len() + 1);
}

/// A cookie file is named behind `--cookies`, and without one nothing is added.
pub proof fn law_push_cookies(args: &mut Vec<String>, cookies: Option<&str>)
    requires
        call_ensures(push_cookies, (args, cookies), ()),
    ensures
        cookies is None ==> final(args).deep_view() == old(args).deep_view(),
        cookies is Some ==> final(args).deep_view() == old(args).deep_view().push(
            "--cookies"@,
        ).push(cookies->0@),
{
    if cookies is None {
        assert(final(args).deep_view() =~= old(args).deep_view());
    } else {
        assert(final(args).deep_view() =~= old(args).deep_view().push("--cookies"@).push(
            cookies->0@,
        ));
    }
}

/// A proxy is named behind `--proxy` and makes a source address of no use; without a proxy the
/// source address is named behind `--source-address`, and IPv6 is forced; without both nothing is
/// added.
pub proof fn law_push_route(args: &mut Vec<String>, proxy: Option<&str>, source: Option<&str>)
    requires
        call_ensures(push_route, (args, proxy, source), ()),
    ensures
        proxy is Some ==> final(args).deep_view() == old(args).deep_view().push("--proxy"@).push(
            proxy->0@,
        ),
        proxy is None && source is Some ==> final(args).deep_view() == old(args).deep_view().push(
            "--force-ipv6"@,
        ).push("--source-address"@).push(source->0@),
        proxy is None && source is None ==> final(args).deep_view() == old(args).deep_view(),
{
    let before = old(args).deep_view();
    if proxy is Some {
        assert(final(args).deep_view() =~= before.push("--proxy"@).push(proxy->0@));
    } else if source is Some {
        assert(final(args).deep_view() =~= before.push("--force-ipv6"@).push(
            "--source-address"@,
        ).push(source->0@));
    } else {
        assert(final(args).deep_view() =~= before);
    }
}

/// The arguments that name a cookie file, where there is one.
pub open spec fn cookies_named(cookies: Option<Seq<char>>) -> Seq<Seq<char>> {
    if cookies is Some {
        seq!["--cookies"@, cookies->0]
    } else {
        Seq::empty()
    }
}

/// The arguments that choose the way out: by the proxy, else from the source address, else none.
pub open spec fn way_out(proxy: Option<Seq<char>>, source: Option<Seq<char>>) -> Seq<Seq<char>> {
    if proxy is Some {
        seq!["--proxy"@, proxy->0]
    } else if source is Some {
        seq!["--force-ipv6"@, "--source-address"@, source->0]
    } else {
        Seq::empty()
    }
}

} // verus!
