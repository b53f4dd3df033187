//! Laws of the nodes and of the source addresses.
use vstd::prelude::*;
use crate::model::NodeInfo;
use crate::net::ipv6::{
    address_texts, detected_block, first_global, global_candidates, interface_after, is_global_line,
    law_candidates_decide, network_part, parse_ipv6_global, random_source_addr, CandidateView,
    GlobalCandidate, Ipv6Block, Ipv6SetupError, SourceAddresses, MAX_USABLE_PREFIX,
};
use crate::net::node::{
    all_full, connected_guilds_count, get_active_nodes, heartbeat_info, least_loaded,
    pick_least_loaded, ConnectedGuilds, EXPIRE_SECS, HEARTBEAT_INTERVAL_SECS, STALE_SECS,
};
use crate::records::readable;
use crate::text::{has_prefix, has_text, is_char, lines, parse_decimal, split_by, trimmed, words};

verus! {

/// Heartbeats come every ten seconds, the list lapses after thirty without one, and a node that
/// was silent for a minute is taken off it.
pub proof fn law_heartbeat_times()
    ensures
        HEARTBEAT_INTERVAL_SECS == 10,
        EXPIRE_SECS == 30,
        STALE_SECS == 60,
{
}

/// A guild counts once it was noted and no longer once it was taken off; noting it twice counts
/// once.
pub proof fn law_connected_guilds_are_counted(
    connected: &mut ConnectedGuilds,
    guild_id: u64,
    again: &mut ConnectedGuilds,
    before: usize,
    noted: usize,
    gone: usize,
)
    requires
        call_ensures(connected_guilds_count, (&*old(connected),), before),
        call_ensures(ConnectedGuilds::insert, (connected, guild_id), ()),
        call_ensures(connected_guilds_count, (&*final(connected),), noted),
        *old(again) == *final(connected),
        call_ensures(ConnectedGuilds::remove, (again, guild_id), ()),
        call_ensures(connected_guilds_count, (&*final(again),), gone),
        old(connected).ids().finite(),
    ensures
        old(connected).ids().contains(guild_id) ==> noted == before && gone == before - 1,
        !old(connected).ids().contains(guild_id) ==> noted == before + 1 && gone == before,
{
    if old(connected).ids().contains(guild_id) {
        assert(old(connected).ids().insert(guild_id) =~= old(connected).ids());
    } else {
        assert(old(connected).ids().insert(guild_id).remove(guild_id) =~= old(connected).ids());
    }
}

/// A heartbeat tells the slots that the connected guilds leave, none if there are more guilds than
/// slots, and else what the node said of itself.
pub proof fn law_heartbeat(
    node_info: &NodeInfo,
    connected: &ConnectedGuilds,
    count: usize,
    r: NodeInfo,
)
    requires
        call_ensures(heartbeat_info, (node_info, connected), r),
        call_ensures(connected_guilds_count, (connected,), count),
    ensures
        count <= node_info.total_slots ==> r.available_slots + count == node_info.total_slots,
        count > node_info.total_slots ==> r.available_slots == 0,
        r.total_slots == node_info.total_slots,
        r.id@ == node_info.id@,
        r.host@ == node_info.host@,
        r.http_port == node_info.http_port,
        r.audio_port == node_info.audio_port,
{
}

/// The active nodes are those entries of the list that could be read and have a free slot: each
/// of them is there, and nothing else is.
pub proof fn law_active_nodes(members: Vec<Option<NodeInfo>>, r: Vec<NodeInfo>, node: NodeInfo)
    requires
        call_ensures(get_active_nodes, (members,), r),
    ensures
        r@.contains(node) <==> members@.contains(Some(node)) && node.available_slots > 0,
{
    let active = |n: NodeInfo| n.available_slots > 0;
    let all = readable(members@);
    lemma_readable_contains(members@, node);
    if r@.contains(node) {
        all.lemma_filter_contains_rev(active, node);
    }
    if all.contains(node) && node.available_slots > 0 {
        let i = choose|i: int| 0 <= i < all.len() && all[i] == node;
        all.lemma_filter_contains(active, i);
    }
}

proof fn lemma_readable_contains(members: Seq<Option<NodeInfo>>, node: NodeInfo)
    ensures
        readable(members).contains(node) <==> members.contains(Some(node)),
    decreases members.len(),
{
    if members.len() > 0 {
        let fewer = members.drop_last();
        lemma_readable_contains(fewer, node);
        assert(members =~= fewer.push(members.last()));
        if members.contains(Some(node)) && members.last() != Some(node) {
            let i = choose|i: int| 0 <= i < members.len() && members[i] == Some(node);
            assert(fewer[i] == Some(node));
        }
        if fewer.contains(Some(node)) {
            let i = choose|i: int| 0 <= i < fewer.len() && fewer[i] == Some(node);
            assert(members[i] == Some(node));
        }
        if let Some(last) = members.last() {
            let rest = readable(fewer);
            assert(readable(members) =~= rest.push(last));
            if rest.contains(node) {
                let i = choose|i: int| 0 <= i < rest.len() && rest[i] == node;
                assert(readable(members)[i] == node);
            }
            if last == node {
                assert(members[members.len() - 1] == Some(node));
                assert(readable(members)[rest.len() as int] == node);
            }
            if readable(members).contains(node) && last != node {
                let i = choose|i: int|
                    0 <= i < readable(members).len() && readable(members)[i] == node;
                assert(rest[i] == node);
            }
        }
    }
}

/// A new guild goes to a node with a free slot that no other node beats, and to none exactly if no
/// node has one; of the nodes with as many slots the last one takes it.
pub proof fn law_least_loaded_takes_the_guild(nodes: Vec<NodeInfo>, r: Option<NodeInfo>)
    requires
        call_ensures(pick_least_loaded, (nodes,), r),
    ensures
        r is None <==> forall|i: int|
            0 <= i < nodes@.len() ==> (#[trigger] nodes@[i]).available_slots == 0,
        r is Some ==> {
            &&& r->0.available_slots > 0
            &&& forall|i: int|
                0 <= i < nodes@.len() ==> (#[trigger] nodes@[i]).available_slots
                    <= r->0.available_slots
            &&& exists|k: int|
                0 <= k < nodes@.len() && #[trigger] nodes@[k] == r->0 && forall|j: int|
                    k < j < nodes@.len() ==> (#[trigger] nodes@[j]).available_slots
                        < r->0.available_slots
        },
{
    if r is Some {
        let k = choose|k: int| #[trigger] least_loaded(nodes@, k) && r->0 == nodes@[k];
        assert(nodes@[k] == r->0);
        assert(nodes@[k].available_slots > 0);
    } else {
        assert(all_full(nodes@));
        assert forall|i: int| 0 <= i < nodes@.len() implies (
        #[trigger] nodes@[i]).available_slots == 0 by {
            assert(nodes@[i].available_slots == 0);
        }
    }
}

/// The first address of a block shares the bits of its prefix with every address of it, and has
/// no others: the address that the block was made of lies less than the size of the block above
/// it.
pub proof fn law_block_of_an_address(
    addr: u128,
    prefix_len: u8,
    block: Ipv6Block,
    first: u128,
    len: u8,
)
    requires
        prefix_len <= 128,
        call_ensures(Ipv6Block::new, (addr, prefix_len), block),
        call_ensures(Ipv6Block::prefix, (&block,), first),
        call_ensures(Ipv6Block::prefix_len, (&block,), len),
    ensures
        len == prefix_len,
        prefix_len == 0 ==> first == 0,
        prefix_len > 0 ==> {
            let bits = (128 - prefix_len) as u128;
            &&& first >> bits == addr >> bits
            &&& first <= addr
            &&& addr - first < (1u128 << bits)
            &&& (first >> bits) << bits == first
        },
{
    if prefix_len > 0 {
        let bits: u128 = (128 - prefix_len) as u128;
        let size: u128 = 1u128 << bits;
        assert(size >= 1) by (bit_vector)
            requires
                size == 1u128 << bits,
                bits < 128,
        ;
        let mask: u128 = (size - 1) as u128;
        assert(first == addr & !mask);
        assert((addr & !mask) + (addr & mask) == addr && addr & mask <= mask) by (bit_vector);
        assert(first >> bits == addr >> bits) by (bit_vector)
            requires
                bits < 128,
                first == addr & !(((1u128 << bits) - 1) as u128),
        ;
        assert((first >> bits) << bits == first) by (bit_vector)
            requires
                bits < 128,
                first == addr & !(((1u128 << bits) - 1) as u128),
        ;
    } else {
        assert(addr & !0xffff_ffff_ffff_ffff_ffff_ffff_ffff_ffffu128 == 0) by (bit_vector);
        assert(u128::MAX == 0xffff_ffff_ffff_ffff_ffff_ffff_ffff_ffffu128);
    }
}

/// A host's address is as far above the first address of its block as the host's number says.
pub proof fn law_address_of_a_host(
    addr: u128,
    prefix_len: u8,
    block: Ipv6Block,
    first: u128,
    host: u128,
    r: u128,
)
    requires
        0 < prefix_len <= 128,
        call_ensures(Ipv6Block::new, (addr, prefix_len), block),
        call_ensures(Ipv6Block::prefix, (&block,), first),
        call_ensures(Ipv6Block::address_of, (&block, host), r),
        host < (1u128 << ((128 - prefix_len) as u128)),
    ensures
        r == first + host,
{
    let bits: u128 = (128 - prefix_len) as u128;
    let size: u128 = 1u128 << bits;
    assert(size >= 1) by (bit_vector)
        requires
            size == 1u128 << bits,
            bits < 128,
    ;
    let mask: u128 = (size - 1) as u128;
    assert(r == first + host) by (bit_vector)
        requires
            bits < 128,
            size == 1u128 << bits,
            mask == size - 1,
            first == addr & !mask,
            r & !mask == first & !mask,
            r & mask == host,
    ;
}

/// A drawn address lies in the block, after its first address and before its last.
pub proof fn law_drawn_address(
    addr: u128,
    prefix_len: u8,
    block: Ipv6Block,
    first: u128,
    r: u128,
)
    requires
        0 < prefix_len <= 126,
        call_ensures(Ipv6Block::new, (addr, prefix_len), block),
        call_ensures(Ipv6Block::prefix, (&block,), first),
        call_ensures(Ipv6Block::random_addr, (&block,), r),
    ensures
        first < r,
        r - first < (1u128 << ((128 - prefix_len) as u128)) - 1,
{
    let bits: u128 = (128 - prefix_len) as u128;
    let size: u128 = 1u128 << bits;
    assert(size >= 1) by (bit_vector)
        requires
            size == 1u128 << bits,
            bits < 128,
    ;
    let mask: u128 = (size - 1) as u128;
    assert(first < r && r - first < size - 1) by (bit_vector)
        requires
            bits < 128,
            size == 1u128 << bits,
            mask == size - 1,
            first == addr & !mask,
            r & !mask == first & !mask,
            r & mask != 0,
            r & mask != mask,
    ;
}

/// A source address lies in the block that is set, after its first address and before its last.
pub proof fn law_source_address(
    addr: u128,
    prefix_len: u8,
    block: Ipv6Block,
    first: u128,
    sources: &SourceAddresses,
    r: Option<u128>,
)
    requires
        0 < prefix_len <= 126,
        call_ensures(Ipv6Block::new, (addr, prefix_len), block),
        call_ensures(Ipv6Block::prefix, (&block,), first),
        sources.block() == Some(block),
        call_ensures(random_source_addr, (sources,), r),
    ensures
        r is Some,
        first < r->0,
        r->0 - first < (1u128 << ((128 - prefix_len) as u128)) - 1,
{
    let bits: u128 = (128 - prefix_len) as u128;
    let size: u128 = 1u128 << bits;
    assert(size >= 1) by (bit_vector)
        requires
            size == 1u128 << bits,
            bits < 128,
    ;
    let mask: u128 = (size - 1) as u128;
    let drawn = r->0;
    assert(first < drawn && drawn - first < size - 1) by (bit_vector)
        requires
            bits < 128,
            size == 1u128 << bits,
            mask == size - 1,
            first == addr & !mask,
            drawn & !mask == first & !mask,
            drawn & mask != 0,
            drawn & mask != mask,
    ;
}

/// A block with a prefix over 96 bits is small, and its size is two to the number of the bits that
/// the prefix leaves.
pub proof fn law_small_blocks(block: &Ipv6Block, len: u8, r: Option<u128>)
    requires
        block.len() <= 128,
        call_ensures(Ipv6Block::prefix_len, (block,), len),
        call_ensures(Ipv6Block::small_block_size, (block,), r),
    ensures
        r is Some <==> len > 96,
        r is Some ==> r->0 == (1u128 << ((128 - len) as u128)),
{
}

/// The block that is installed first is the one that addresses are drawn from; a second one is
/// refused and changes nothing. Without a block no address is drawn.
pub proof fn law_first_block_stays(
    sources: &mut SourceAddresses,
    block: Ipv6Block,
    r: Result<(), Ipv6SetupError>,
    before: Option<u128>,
    drawn: Option<u128>,
)
    requires
        call_ensures(random_source_addr, (&*old(sources),), before),
        call_ensures(SourceAddresses::install, (sources, block), r),
        call_ensures(random_source_addr, (&*final(sources),), drawn),
    ensures
        r is Ok <==> before is None,
        r is Err ==> r->Err_0 == Ipv6SetupError::AlreadyInitialized && final(sources).block()
            == old(sources).block(),
        r is Ok ==> drawn is Some && network_part(drawn->0, block.len()) == network_part(
            block.network(),
            block.len(),
        ),
        MAX_USABLE_PREFIX == 126,
{
}

/// The block is that of the address that was found; without one the setup fails.
pub proof fn law_detected_block(
    found: Option<(u128, u8, String)>,
    r: Result<Ipv6Block, Ipv6SetupError>,
    other: Ipv6Block,
)
    requires
        found is Some ==> (found->0).1 <= 128,
        call_ensures(detected_block, (found,), r),
        found is Some ==> call_ensures(Ipv6Block::new, ((found->0).0, (found->0).1), other),
    ensures
        found is None ==> r is Err && r->Err_0 == Ipv6SetupError::NoGlobalAddress,
        found is Some ==> r is Ok && r->Ok_0.network() == other.network() && r->Ok_0.len()
            == other.len(),
{
}

/// The messages of the setup's errors.
pub proof fn law_setup_messages(err: &Ipv6SetupError, r: String)
    requires
        call_ensures(Ipv6SetupError::message, (err,), r),
    ensures
        *err == Ipv6SetupError::NoGlobalAddress ==> r@
            == "no global-scope IPv6 address found on any interface"@,
        *err == Ipv6SetupError::AlreadyInitialized ==> r@ == "IPv6 block already initialized"@,
{
}

/// A line that begins with a digit names the interface of the lines after it between its first
/// two colons; any other line leaves it.
pub proof fn law_interface(interface: Seq<char>, line: Seq<char>, number: Seq<char>, name: Seq<
    char,
>, rest: Seq<char>)
    ensures
        line.len() == 0 || !('0' <= line[0] <= '9') ==> interface_after(interface, line)
            == interface,
        !line.contains(':') ==> interface_after(interface, line) == interface,
        line == number + seq![':'] + name + rest && number.len() > 0 && '0' <= number[0] <= '9'
            && !number.contains(':') && !name.contains(':') && (rest.len() == 0 || rest[0] == ':')
            ==> interface_after(interface, line) == trimmed(name),
{
    let f = is_char(':');
    let pieces = split_by(line, f);
    crate::laws::text::law_pieces_join(line, ':');
    if !line.contains(':') {
        crate::laws::text::lemma_one_piece(line, ':');
    }
    if line == number + seq![':'] + name + rest && !number.contains(':') && !name.contains(':')
        && (rest.len() == 0 || rest[0] == ':') {
        crate::laws::text::lemma_second_piece(line, number, name, rest, ':');
        if number.len() > 0 {
            assert(line[0] == number[0]);
        }
    }
}

/// An address line begins with `inet6 ` and holds `scope global`; its address and its prefix are
/// the texts before and after the slash in its second word.
pub proof fn law_address_line(line: Seq<char>, addr: Seq<char>, prefix: Seq<char>)
    ensures
        is_global_line(line) <==> has_prefix(line, "inet6 "@) && has_text(line, "scope global"@),
        words(line).len() <= 1 ==> address_texts(line) is None,
        words(line).len() > 1 && !words(line)[1].contains('/') ==> address_texts(line) is None,
        words(line).len() > 1 && words(line)[1] == addr.push('/') + prefix && !addr.contains('/')
            ==> address_texts(line) == Some((addr, prefix)),
{
    if words(line).len() > 1 {
        crate::laws::text::lemma_split_once(words(line)[1], addr, '/', prefix);
    }
}

/// Line `i` is an address line whose texts can be read, with the given address and prefix.
pub open spec fn gives_address(
    line: Seq<char>,
    addr_of: spec_fn(Seq<char>) -> Option<u128>,
    addr: u128,
    prefix: nat,
) -> bool {
    &&& is_global_line(line)
    &&& address_texts(line) is Some
    &&& addr_of((address_texts(line)->0).0) == Some(addr)
    &&& parse_decimal((address_texts(line)->0).1, 255) == Some(prefix)
}

/// The interface that line `i` stands under, given the one before line `from`.
pub open spec fn interface_at(rows: Seq<Seq<char>>, from: int, i: int, interface: Seq<char>) -> Seq<
    char,
>
    decreases i - from + 1,
{
    if i < from {
        interface
    } else {
        interface_after(interface_at(rows, from, i - 1, interface), trimmed(rows[i]))
    }
}

proof fn lemma_interface_at(rows: Seq<Seq<char>>, from: int, i: int, interface: Seq<char>)
    requires
        from <= i,
    ensures
        interface_at(rows, from, i, interface) == interface_at(
            rows,
            from + 1,
            i,
            interface_after(interface, trimmed(rows[from])),
        ),
    decreases i - from,
{
    if from < i {
        lemma_interface_at(rows, from, i - 1, interface);
    } else {
        assert(interface_at(rows, from, from - 1, interface) == interface);
    }
}

/// The address that is found stands in an address line with a prefix under 128 bits; every
/// address line before it can be read and has a longer one. It is told with its prefix and with
/// the interface that it stands under.
pub proof fn law_found_address(
    rows: Seq<Seq<char>>,
    from: int,
    interface: Seq<char>,
    addr_of: spec_fn(Seq<char>) -> Option<u128>,
)
    requires
        0 <= from,
    ensures
        first_global(rows, from, interface, addr_of) matches Some((addr, prefix, name)) ==> prefix
            < 128 && exists|k: int|
            from <= k < rows.len() && gives_address(
                trimmed(#[trigger] rows[k]),
                addr_of,
                addr,
                prefix as nat,
            ) && name == interface_at(rows, from, k, interface) && forall|j: int|
                from <= j < k && is_global_line(trimmed(#[trigger] rows[j])) ==> exists|
                    a: u128,
                    p: nat,
                |
                    #[trigger] gives_address(trimmed(rows[j]), addr_of, a, p) && p >= 128,
    decreases rows.len() - from,
{
    if from < rows.len() {
        let line = trimmed(rows[from]);
        let here = interface_after(interface, line);
        law_found_address(rows, from + 1, here, addr_of);
        if let Some((addr, prefix, name)) = first_global(rows, from, interface, addr_of) {
            assert(interface_at(rows, from, from - 1, interface) == interface);
            if is_global_line(line) {
                let texts = address_texts(line)->0;
                let a = addr_of(texts.0)->0;
                let p = parse_decimal(texts.1, 255)->0;
                assert(gives_address(line, addr_of, a, p));
                if p < 128 {
                    assert(gives_address(trimmed(rows[from]), addr_of, addr, prefix as nat));
                }
            }
            if first_global(rows, from, interface, addr_of) == first_global(
                rows,
                from + 1,
                here,
                addr_of,
            ) && !(is_global_line(line) && parse_decimal((address_texts(line)->0).1, 255)->0 < 128) {
                let k = choose|k: int|
                    from + 1 <= k < rows.len() && gives_address(
                        trimmed(#[trigger] rows[k]),
                        addr_of,
                        addr,
                        prefix as nat,
                    ) && name == interface_at(rows, from + 1, k, here) && forall|j: int|
                        from + 1 <= j < k && is_global_line(trimmed(#[trigger] rows[j])) ==> exists|
                            a: u128,
                            p: nat,
                        |
                            #[trigger] gives_address(trimmed(rows[j]), addr_of, a, p) && p >= 128;
                lemma_interface_at(rows, from, k, interface);
                assert(gives_address(trimmed(rows[k]), addr_of, addr, prefix as nat));
            }
        }
    }
}

/// An address is found wherever an address line with a prefix under 128 bits can be read and every
/// address line before it can be read.
pub proof fn law_address_is_found(
    rows: Seq<Seq<char>>,
    from: int,
    interface: Seq<char>,
    addr_of: spec_fn(Seq<char>) -> Option<u128>,
    k: int,
    addr: u128,
    prefix: nat,
)
    requires
        0 <= from <= k < rows.len(),
        gives_address(trimmed(rows[k]), addr_of, addr, prefix),
        prefix < 128,
        forall|j: int|
            from <= j < k && is_global_line(trimmed(#[trigger] rows[j])) ==> exists|
                a: u128,
                p: nat,
            |
                #[trigger] gives_address(trimmed(rows[j]), addr_of, a, p),
    ensures
        first_global(rows, from, interface, addr_of) is Some,
    decreases k - from,
{
    let line = trimmed(rows[from]);
    let here = interface_after(interface, line);
    if from < k {
        law_address_is_found(rows, from + 1, here, addr_of, k, addr, prefix);
        if is_global_line(line) {
            let (a, p) = choose|a: u128, p: nat|
                #[trigger] gives_address(trimmed(rows[from]), addr_of, a, p);
            assert(gives_address(line, addr_of, a, p));
        }
    }
}

/// The address that is found is the last of those that were read, with its prefix and its
/// interface, and there is one exactly if all of them could be read.
pub proof fn law_chosen_address(
    candidates: &Vec<GlobalCandidate>,
    addrs: &Vec<Option<u128>>,
    r: Option<(u128, u8, String)>,
)
    requires
        candidates@.len() == addrs@.len(),
        call_ensures(parse_ipv6_global, (candidates, addrs), r),
    ensures
        r is Some <==> candidates@.len() > 0 && forall|i: int|
            0 <= i < addrs@.len() ==> #[trigger] addrs@[i] is Some,
        r is Some ==> (r->0).0 == addrs@.last()->0 && (r->0).1 == candidates@.last().prefix_len && (
        r->0).2@ == candidates@.last().interface@,
{
    assert(candidates.deep_view().len() == candidates@.len());
    if candidates@.len() > 0 {
        assert(candidates.deep_view().last() == candidates@.last()@);
    }
}

/// Reading an output gives the address that its lines give, read one by one from the first: the
/// texts of the addresses are read between the two calls.
pub proof fn law_address_of_an_output(
    output: &str,
    candidates: Option<Vec<GlobalCandidate>>,
    addr_of: spec_fn(Seq<char>) -> Option<u128>,
    addrs: Vec<Option<u128>>,
    r: Option<(u128, u8, String)>,
)
    requires
        call_ensures(global_candidates, (output,), candidates),
        candidates is Some ==> {
            &&& addrs@.len() == candidates->0@.len()
            &&& forall|i: int|
                0 <= i < addrs@.len() ==> #[trigger] addrs@[i] == addr_of(candidates->0@[i].addr@)
            &&& call_ensures(parse_ipv6_global, (&candidates->0, &addrs), r)
        },
        candidates is None ==> r is None,
    ensures
        ({
            let found = first_global(lines(output@), 0, Seq::empty(), addr_of);
            &&& r is None <==> found is None
            &&& r is Some ==> found == Some(((r->0).0, (r->0).1, (r->0).2@))
        }),
{
    law_candidates_decide(lines(output@), 0, Seq::empty(), addr_of);
    if candidates is Some {
        let views = candidates->0.deep_view();
        let read = views.map_values(|c: CandidateView| addr_of(c.addr));
        assert(read =~= addrs@) by {
            assert forall|i: int| 0 <= i < addrs@.len() implies #[trigger] read[i] == addrs@[i] by {
                assert(views[i] == candidates->0@[i]@);
            }
        }
    }
}

} // verus!
