//! The block of IPv6 addresses that outgoing connections are spread over.
//!
//! An address is the 128-bit number that it stands for.
use vstd::prelude::*;
use rand::Rng;
use crate::text::{
    chars_of, contains, has_prefix, has_text, is_char, is_digit, lines, parse_decimal,
    parse_number, split_at_char, split_by, split_char, split_lines, split_once, split_whitespace,
    starts_with, trim, trimmed, words,
};

verus! {

/// The bits of an address that tell the hosts of a block apart.
pub open spec fn host_mask(prefix_len: u8) -> u128 {
    if prefix_len == 0 {
        u128::MAX
    } else if prefix_len <= 128 {
        ((1u128 << ((128 - prefix_len) as u128)) - 1) as u128
    } else {
        0
    }
}

/// The address with all its host bits cleared.
pub open spec fn network_part(addr: u128, prefix_len: u8) -> u128 {
    addr & !host_mask(prefix_len)
}

/// The host bits of the address.
pub open spec fn host_part(addr: u128, prefix_len: u8) -> u128 {
    addr & host_mask(prefix_len)
}

/// The longest prefix that leaves a host between the first and the last of its block.
pub const MAX_USABLE_PREFIX: u8 = 126;

/// A prefix over this length leaves a small block.
pub const SMALL_BLOCK_PREFIX: u8 = 96;

/// A block of addresses that share a prefix.
#[derive(Debug, Clone, Copy)]
pub struct Ipv6Block {
    prefix: u128,
    prefix_len: u8,
}

/// The mask of the host bits.
fn mask_of(prefix_len: u8) -> (r: u128)
    requires
        prefix_len <= 128,
    ensures
        r == host_mask(prefix_len),
{
    let host_bits: u128 = 128 - prefix_len as u128;
    if host_bits >= 128 {
        u128::MAX
    } else {
        assert(1u128 << host_bits >= 1) by (bit_vector)
            requires
                host_bits < 128,
        ;
        (1u128 << host_bits) - 1
    }
}

/// `rand::Rng::gen_range` on the thread's generator draws a number from the range, its lower
/// end included and its upper end not. It panics on an empty range.
#[verifier::external_body]
fn draw_between(low: u128, high: u128) -> (r: u128)
    requires
        low < high,
    ensures
        low <= r < high,
{
    rand::thread_rng().gen_range(low..high)
}

impl Ipv6Block {
    /// The first address of the block.
    pub closed spec fn network(&self) -> u128 {
        self.prefix
    }

    /// The number of bits that the addresses of the block share.
    pub closed spec fn len(&self) -> u8 {
        self.prefix_len
    }

    /// The block that the address lies in.
    pub fn new(addr: u128, prefix_len: u8) -> (r: Self)
        requires
            prefix_len <= 128,
        ensures
            r.network() == network_part(addr, prefix_len),
            r.len() == prefix_len,
    {
        let mask: u128 = mask_of(prefix_len);
        Ipv6Block { prefix: addr & !mask, prefix_len }
    }

    /// The first address of the block.
    pub fn prefix(&self) -> (r: u128)
        ensures
            r == self.network(),
    {
        self.prefix
    }

    /// The number of bits that the addresses of the block share.
    pub fn prefix_len(&self) -> (r: u8)
        ensures
            r == self.len(),
    {
        self.prefix_len
    }

    /// The number of addresses in the block, if the block is small.
    pub fn small_block_size(&self) -> (r: Option<u128>)
        requires
            self.len() <= 128,
        ensures
            r == (if self.len() > SMALL_BLOCK_PREFIX {
                Some(1u128 << ((128 - self.len()) as u128))
            } else {
                None
            }),
    {
        if self.prefix_len > SMALL_BLOCK_PREFIX {
            let host_bits: u128 = 128 - self.prefix_len as u128;
            Some(1u128 << host_bits)
        } else {
            None
        }
    }

    /// The address of the block with the given host bits.
    pub fn address_of(&self, host: u128) -> (r: u128)
        requires
            self.len() <= 128,
            host <= host_mask(self.len()),
        ensures
            network_part(r, self.len()) == network_part(self.network(), self.len()),
            host_part(r, self.len()) == host,
    {
        let mask: u128 = mask_of(self.prefix_len);
        let prefix = self.prefix;
        let addr: u128 = (prefix & !mask) | host;
        proof {
            let bits: u128 = (128 - self.prefix_len) as u128;
            if self.prefix_len == 0 {
                assert(host & mask == host) by (bit_vector)
                    requires
                        mask == 0xffff_ffff_ffff_ffff_ffff_ffff_ffff_ffffu128,
                ;
            } else {
                assert(1u128 << bits >= 1) by (bit_vector)
                    requires
                        bits < 128,
                ;
                assert(host & mask == host) by (bit_vector)
                    requires
                        mask == (1u128 << bits) - 1,
                        bits < 128,
                        host <= mask,
                ;
            }
            assert(addr & !mask == prefix & !mask && addr & mask == host) by (bit_vector)
                requires
                    addr == (prefix & !mask) | host,
                    host & mask == host,
            ;
        }
        addr
    }

    /// An address of the block that is neither its first nor its last, drawn at random.
    pub fn random_addr(&self) -> (r: u128)
        requires
            self.len() <= MAX_USABLE_PREFIX,
        ensures
            network_part(r, self.len()) == network_part(self.network(), self.len()),
            host_part(r, self.len()) != 0,
            host_part(r, self.len()) != host_mask(self.len()),
    {
        let mask: u128 = mask_of(self.prefix_len);
        proof {
            let bits: u128 = (128 - self.prefix_len) as u128;
            if self.prefix_len > 0 {
                assert((1u128 << bits) >= 4) by (bit_vector)
                    requires
                        2 <= bits < 128,
                ;
            }
        }
        let host: u128 = draw_between(1, mask);
        self.address_of(host)
    }
}

/// The block that source addresses are drawn from. It can be set once.
#[derive(Debug)]
pub struct SourceAddresses {
    block: Option<Ipv6Block>,
}

impl SourceAddresses {
    #[verifier::type_invariant]
    spec fn usable(self) -> bool {
        self.block matches Some(b) ==> b.prefix_len <= MAX_USABLE_PREFIX
    }

    /// The block that was set.
    pub closed spec fn block(&self) -> Option<Ipv6Block> {
        self.block
    }

    /// No block is set.
    pub fn new() -> (r: Self)
        ensures
            r.block() is None,
    {
        SourceAddresses { block: None }
    }

    /// Sets the block. Fails, and changes nothing, if one is set already.
    pub fn install(&mut self, block: Ipv6Block) -> (r: Result<(), Ipv6SetupError>)
        requires
            block.len() <= MAX_USABLE_PREFIX,
        ensures
            match r {
                Ok(_) => old(self).block() is None && final(self).block() == Some(block),
                Err(e) => old(self).block() is Some && e is AlreadyInitialized
                    && final(self).block() == old(self).block(),
            },
    {
        if self.block.is_some() {
            return Err(Ipv6SetupError::AlreadyInitialized);
        }
        self.block = Some(block);
        Ok(())
    }
}

/// A source address for an outgoing connection, if a block is set: an address of the block
/// that is neither its first nor its last.
pub fn random_source_addr(sources: &SourceAddresses) -> (r: Option<u128>)
    ensures
        match sources.block() {
            Some(b) => r matches Some(addr) && {
                &&& network_part(addr, b.len()) == network_part(b.network(), b.len())
                &&& host_part(addr, b.len()) != 0
                &&& host_part(addr, b.len()) != host_mask(b.len())
            },
            None => r is None,
        },
{
    proof {
        use_type_invariant(sources);
    }
    match &sources.block {
        Some(b) => Some(b.random_addr()),
        None => None,
    }
}

/// Why no block of source addresses was set up.
#[derive(Debug, Clone, Copy, PartialEq, Eq, Structural)]
pub enum Ipv6SetupError {
    NoGlobalAddress,
    AlreadyInitialized,
}

impl Ipv6SetupError {
    /// The message that a person reads.
    pub open spec fn text(&self) -> Seq<char> {
        match self {
            Ipv6SetupError::NoGlobalAddress => {
                "no global-scope IPv6 address found on any interface"@
            },
            Ipv6SetupError::AlreadyInitialized => "IPv6 block already initialized"@,
        }
    }

    /// The message that a person reads.
    pub fn message(&self) -> (r: String)
        ensures
            r@ == self.text(),
    {
        match self {
            Ipv6SetupError::NoGlobalAddress => String::from_str(
                "no global-scope IPv6 address found on any interface",
            ),
            Ipv6SetupError::AlreadyInitialized => String::from_str(
                "IPv6 block already initialized",
            ),
        }
    }
}

/// An address line of the output of `ip -6 addr show`: the texts before and after its slash,
/// the latter read as a number, and the interface it stands under.
#[derive(Debug)]
pub struct GlobalCandidate {
    pub addr: String,
    pub prefix_len: u8,
    pub interface: String,
}

/// An address line over sequences of characters.
#[verifier::ext_equal]
pub struct CandidateView {
    pub addr: Seq<char>,
    pub prefix_len: u8,
    pub interface: Seq<char>,
}

impl View for GlobalCandidate {
    type V = CandidateView;

    open spec fn view(&self) -> CandidateView {
        CandidateView {
            addr: self.addr@,
            prefix_len: self.prefix_len,
            interface: self.interface@,
        }
    }
}

impl DeepView for GlobalCandidate {
    type V = CandidateView;

    open spec fn deep_view(&self) -> CandidateView {
        self@
    }
}

/// The interface that the lines after `line` stand under: a line that begins with a digit
/// names one between its first two colons.
pub open spec fn interface_after(interface: Seq<char>, line: Seq<char>) -> Seq<char> {
    let pieces = split_by(line, is_char(':'));
    if line.len() > 0 && is_digit(line[0]) && pieces.len() > 1 {
        trimmed(pieces[1])
    } else {
        interface
    }
}

/// The line gives an address of global scope.
pub open spec fn is_global_line(line: Seq<char>) -> bool {
    has_prefix(line, "inet6 "@) && has_text(line, "scope global"@)
}

/// The texts before and after the slash in the second word of an address line.
pub open spec fn address_texts(line: Seq<char>) -> Option<(Seq<char>, Seq<char>)> {
    if words(line).len() > 1 {
        split_once(words(line)[1], '/')
    } else {
        None
    }
}

/// The first address of global scope with a prefix under 128 bits among the lines from `i` on,
/// with its prefix and its interface. `addr_of` gives the number that an address text stands
/// for. There is none if an address line before it, or its own, cannot be read.
pub open spec fn first_global(
    lines: Seq<Seq<char>>,
    i: int,
    interface: Seq<char>,
    addr_of: spec_fn(Seq<char>) -> Option<u128>,
) -> Option<(u128, u8, Seq<char>)>
    decreases lines.len() - i,
{
    if i < 0 || i >= lines.len() {
        None
    } else {
        let line = trimmed(lines[i]);
        let here = interface_after(interface, line);
        if is_global_line(line) {
            match address_texts(line) {
                Some((addr, prefix)) => match (addr_of(addr), parse_decimal(prefix, 255)) {
                    (Some(a), Some(p)) => if p < 128 {
                        Some((a, p as u8, here))
                    } else {
                        first_global(lines, i + 1, here, addr_of)
                    },
                    _ => None,
                },
                None => None,
            }
        } else {
            first_global(lines, i + 1, here, addr_of)
        }
    }
}

/// The address lines that the choice of an address rests on, from line `i` on: all up to the
/// first one with a prefix under 128 bits. `None` if one of them cannot be read or none has
/// such a prefix.
pub open spec fn candidates_from(
    lines: Seq<Seq<char>>,
    i: int,
    interface: Seq<char>,
) -> Option<Seq<CandidateView>>
    decreases lines.len() - i,
{
    if i < 0 || i >= lines.len() {
        None
    } else {
        let line = trimmed(lines[i]);
        let here = interface_after(interface, line);
        if is_global_line(line) {
            match address_texts(line) {
                Some((addr, prefix)) => match parse_decimal(prefix, 255) {
                    Some(p) => {
                        let found = CandidateView { addr, prefix_len: p as u8, interface: here };
                        if p < 128 {
                            Some(seq![found])
                        } else {
                            preceded(seq![found], candidates_from(lines, i + 1, here))
                        }
                    },
                    None => None,
                },
                None => None,
            }
        } else {
            candidates_from(lines, i + 1, here)
        }
    }
}

/// The rows one after the other, if there is a second one.
pub open spec fn preceded(
    first: Seq<CandidateView>,
    rest: Option<Seq<CandidateView>>,
) -> Option<Seq<CandidateView>> {
    match rest {
        Some(r) => Some(first + r),
        None => None,
    }
}

/// The choice among the address lines: the last one, if every address text stands for an
/// address.
pub open spec fn chosen(
    candidates: Seq<CandidateView>,
    addrs: Seq<Option<u128>>,
) -> Option<(u128, u8, Seq<char>)> {
    if candidates.len() > 0 && forall|i: int| 0 <= i < addrs.len() ==> #[trigger] addrs[i] is Some {
        Some((addrs.last()->0, candidates.last().prefix_len, candidates.last().interface))
    } else {
        None
    }
}

/// The address lines, in the output of `ip -6 addr show`, that the choice of an address rests
/// on.
pub fn global_candidates(output: &str) -> (r: Option<Vec<GlobalCandidate>>)
    ensures
        r.deep_view() == candidates_from(lines(output@), 0, Seq::empty()),
{
    let rows = split_lines(output);
    let ghost all = rows.deep_view();
    let mut interface = String::new();
    let mut out: Vec<GlobalCandidate> = Vec::new();
    let ghost whole = candidates_from(all, 0, Seq::empty());
    assert(out.deep_view() =~= Seq::<CandidateView>::empty());
    assert(interface@ =~= Seq::<char>::empty());
    proof {
        if let Some(rest) = candidates_from(all, 0, interface@) {
            assert(out.deep_view() + rest =~= rest);
        }
    }
    for i in 0..rows.len()
        invariant
            all == rows.deep_view(),
            whole == candidates_from(lines(output@), 0, Seq::empty()),
            whole == preceded(out.deep_view(), candidates_from(all, i as int, interface@)),
    {
        let line = trim(&rows[i]);
        let ghost before = out.deep_view();
        let ghost rest = candidates_from(all, i + 1, interface_after(interface@, line@));
        let chars = chars_of(&line);
        if chars.len() > 0 && '0' <= chars[0] && chars[0] <= '9' {
            let pieces = split_char(&line, ':');
            if pieces.len() > 1 {
                assert(pieces.deep_view()[1] == pieces@[1]@);
                interface = trim(&pieces[1]);
            }
        }
        if starts_with(&line, "inet6 ") && contains(&line, "scope global") {
            let fields = split_whitespace(&line);
            if fields.len() <= 1 {
                return None;
            }
            assert(fields.deep_view()[1] == fields@[1]@);
            match split_at_char(&fields[1], '/') {
                Some((addr, prefix)) => match parse_number(&prefix, 255) {
                    Some(p) => {
                        let prefix_len: u8 = p as u8;
                        let found = GlobalCandidate {
                            addr,
                            prefix_len,
                            interface: interface.clone(),
                        };
                        out.push(found);
                        assert(out.deep_view() =~= before + seq![found@]);
                        if p < 128 {
                            return Some(out);
                        }
                        proof {
                            if let Some(tail) = rest {
                                assert(before + (seq![found@] + tail) =~= out.deep_view() + tail);
                            }
                        }
                    },
                    None => {
                        return None;
                    },
                },
                None => {
                    return None;
                },
            }
        }
    }
    None
}

/// The address that was found, its prefix and its interface. `addrs` holds, for each address
/// line, the number that its address text stands for.
pub fn parse_ipv6_global(
    candidates: &Vec<GlobalCandidate>,
    addrs: &Vec<Option<u128>>,
) -> (r: Option<(u128, u8, String)>)
    requires
        candidates@.len() == addrs@.len(),
    ensures
        match r {
            Some((addr, prefix_len, interface)) => chosen(candidates.deep_view(), addrs@) == Some(
                (addr, prefix_len, interface@),
            ),
            None => chosen(candidates.deep_view(), addrs@) is None,
        },
{
    for i in 0..addrs.len()
        invariant
            forall|j: int| 0 <= j < i ==> #[trigger] addrs@[j] is Some,
    {
        if addrs[i].is_none() {
            assert(!(addrs@[i as int] is Some));
            return None;
        }
    }
    if candidates.len() == 0 {
        return None;
    }
    let last: usize = candidates.len() - 1;
    assert(candidates.deep_view().last() == candidates@[last as int]@);
    match addrs[last] {
        Some(addr) => Some((addr, candidates[last].prefix_len, candidates[last].interface.clone())),
        None => None,
    }
}

/// The block to draw source addresses from, given what was found on the interfaces.
pub fn detected_block(found: Option<(u128, u8, String)>) -> (r: Result<Ipv6Block, Ipv6SetupError>)
    requires
        found matches Some((_, prefix_len, _)) ==> prefix_len <= 128,
    ensures
        match found {
            Some((addr, prefix_len, _)) => r matches Ok(b) && b.len() == prefix_len && b.network()
                == network_part(addr, prefix_len),
            None => r matches Err(e) && e is NoGlobalAddress,
        },
{
    match found {
        Some((addr, prefix_len, _)) => Ok(Ipv6Block::new(addr, prefix_len)),
        None => Err(Ipv6SetupError::NoGlobalAddress),
    }
}

/// Reading the address lines first and their address texts afterwards finds what reading line
/// by line finds.
pub proof fn law_candidates_decide(
    lines: Seq<Seq<char>>,
    i: int,
    interface: Seq<char>,
    addr_of: spec_fn(Seq<char>) -> Option<u128>,
)
    ensures
        first_global(lines, i, interface, addr_of) == match candidates_from(lines, i, interface) {
            Some(found) => chosen(
                found,
                found.map_values(|c: CandidateView| addr_of(c.addr)),
            ),
            None => None,
        },
        candidates_from(lines, i, interface) matches Some(found) ==> found.len() > 0
            && found.last().prefix_len < 128,
    decreases lines.len() - i,
{
    let read = |c: CandidateView| addr_of(c.addr);
    if 0 <= i < lines.len() {
        let line = trimmed(lines[i]);
        let here = interface_after(interface, line);
        law_candidates_decide(lines, i + 1, here, addr_of);
        if is_global_line(line) {
            if let Some((addr, prefix)) = address_texts(line) {
                if let Some(p) = parse_decimal(prefix, 255) {
                    let found = CandidateView { addr, prefix_len: p as u8, interface: here };
                    if p < 128 {
                        assert(seq![found].map_values(read)[0] == addr_of(addr));
                        assert(seq![found].map_values(read).last() == addr_of(addr));
                    } else if let Some(rest) = candidates_from(lines, i + 1, here) {
                        let whole = seq![found] + rest;
                        let read_whole = whole.map_values(read);
                        let read_rest = rest.map_values(read);
                        assert(read_whole[0] == addr_of(addr));
                        assert forall|j: int| 0 <= j < read_rest.len() implies read_whole[j + 1]
                            == #[trigger] read_rest[j] by {
                            assert(whole[j + 1] == rest[j]);
                        }
                        assert(whole.last() == rest.last());
                        assert(read_whole.last() == read_rest.last());
                        if addr_of(addr) is Some && forall|j: int|
                            0 <= j < read_rest.len() ==> #[trigger] read_rest[j] is Some {
                            assert forall|j: int| 0 <= j < read_whole.len() implies
                                #[trigger] read_whole[j] is Some by {
                                if j > 0 {
                                    assert(read_rest[j - 1] is Some);
                                }
                            }
                        }
                    }
                }
            }
        }
    }
}

/// An address is made of its network part and its host part, and the network part of a block is
/// its own first address.
pub proof fn law_address_is_network_and_host(addr: u128, prefix_len: u8)
    ensures
        network_part(addr, prefix_len) | host_part(addr, prefix_len) == addr,
        network_part(network_part(addr, prefix_len), prefix_len) == network_part(addr, prefix_len),
        host_part(network_part(addr, prefix_len), prefix_len) == 0,
{
    let mask = host_mask(prefix_len);
    assert((addr & !mask) | (addr & mask) == addr) by (bit_vector);
    assert((addr & !mask) & !mask == addr & !mask) by (bit_vector);
    assert((addr & !mask) & mask == 0) by (bit_vector);
}

} // verus!
