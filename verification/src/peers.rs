//! From browse events to peer events.
//!
//! The browse loop subscribes to discovery events for the shared service
//! type.  Each resolved advertisement is turned into a [`Peer`]: one address
//! is chosen (an IPv4 address is preferred over any other; with no IPv4 the
//! first candidate is taken; with no address at all the advertisement is
//! dropped silently), the nickname comes from the advertisement metadata and
//! falls back to the `"Unknown"` sentinel, and the fully-qualified instance
//! name becomes the peer's identity.  A withdrawal becomes a "peer lost"
//! event carrying only that name.  Every other event kind is ignored.

use crate::decimal::dec_seq;
use crate::decimal::u16_to_dec;
use vstd::prelude::*;
use vstd::string::StringExecFns;

verus! {

/// A discovered participant, as published to the consumer of peer events.
#[derive(Clone, Debug)]
pub struct Peer {
    /// The fully-qualified advertisement instance name; unique per running
    /// session (the instance name embeds the advertised port).
    pub id: String,
    /// Text of the chosen address of the peer's receiver endpoint.
    pub ip: String,
    /// Port of the peer's receiver endpoint.
    pub port: u16,
    /// Display name from the advertisement metadata, or the sentinel.
    pub nickname: String,
    /// Freshness placeholder; never populated with a real clock reading.
    pub last_seen: u64,
}

/// One candidate address taken from a resolved advertisement.
#[derive(Clone, Debug)]
pub enum IpCandidate {
    /// An IPv4 address as its four octets.
    V4 { a: u8, b: u8, c: u8, d: u8 },
    /// Any other address, carried as its text.
    Other { text: String },
}

/// A resolved advertisement, reduced to the values the browse logic reads.
#[derive(Clone, Debug)]
pub struct ResolvedAdvert {
    /// The fully-qualified instance name of the advertisement.
    pub fullname: String,
    /// The advertised receiver port.
    pub port: u16,
    /// The candidate addresses, in the order the resolver offered them.
    pub addresses: Vec<IpCandidate>,
    /// The `nickname` metadata entry, if the advertisement carried one.
    pub nickname: Option<String>,
}

/// One event from the browse subscription, reduced to plain values.
pub enum BrowseEvent {
    /// An advertisement resolved to an address set and metadata.
    Resolved(ResolvedAdvert),
    /// An advertisement was withdrawn; carries its fullname.
    Removed(String),
    /// Any other event kind.
    Other,
}

/// An outbound event for the consumer of discovery activity.
pub enum PeerEvent {
    /// A peer was resolved.
    Found(Peer),
    /// The advertisement with this fullname was withdrawn.
    Lost(String),
}

/// The dotted-quad text of an IPv4 address.
pub open spec fn ipv4_seq(a: nat, b: nat, c: nat, d: nat) -> Seq<char> {
    dec_seq(a) + "."@ + dec_seq(b) + "."@ + dec_seq(c) + "."@ + dec_seq(d)
}

/// The text under which a candidate address is published.
pub open spec fn addr_text(addr: IpCandidate) -> Seq<char> {
    match addr {
        IpCandidate::V4 { a, b, c, d } => ipv4_seq(a as nat, b as nat, c as nat, d as nat),
        IpCandidate::Other { text } => text@,
    }
}

/// Whether `i` is the index the address selection picks: the first IPv4
/// candidate if there is one, the first candidate otherwise.
pub open spec fn picked_index(addrs: Seq<IpCandidate>, i: int) -> bool {
    0 <= i < addrs.len() && if exists|j: int| 0 <= j < addrs.len() && addrs[j] is V4 {
        addrs[i] is V4 && (forall|j: int| 0 <= j < i ==> !(addrs[j] is V4))
    } else {
        i == 0
    }
}

/// The published nickname: the metadata entry if present, the sentinel if
/// absent.
pub open spec fn nickname_or_default(nickname: Option<String>) -> Seq<char> {
    match nickname {
        Some(n) => n@,
        None => "Unknown"@,
    }
}

/// Whether `p` is the peer that the advertisement `adv` resolves to.
pub open spec fn peer_matches(p: Peer, adv: ResolvedAdvert) -> bool {
    &&& p.id@ == adv.fullname@
    &&& p.port == adv.port
    &&& p.nickname@ == nickname_or_default(adv.nickname)
    &&& p.last_seen == 0
    &&& exists|i: int|
        #[trigger] picked_index(adv.addresses@, i) && p.ip@ == addr_text(adv.addresses@[i])
}

/// Renders an IPv4 address as dotted-quad text.
pub fn ipv4_text(a: u8, b: u8, c: u8, d: u8) -> (s: String)
    ensures
        s@ == ipv4_seq(a as nat, b as nat, c as nat, d as nat),
{
    let mut s = u16_to_dec(a as u16);
    s.append(".");
    s.append(u16_to_dec(b as u16).as_str());
    s.append(".");
    s.append(u16_to_dec(c as u16).as_str());
    s.append(".");
    s.append(u16_to_dec(d as u16).as_str());
    proof {
        assert(s@ =~= ipv4_seq(a as nat, b as nat, c as nat, d as nat));
    }
    s
}

/// Selects the address to publish for a peer: the first IPv4 candidate if
/// any is present, otherwise the first candidate of all; `None` only when
/// there is no candidate at all.
pub fn pick_address_index(addrs: &Vec<IpCandidate>) -> (r: Option<usize>)
    ensures
        r is None <==> addrs@.len() == 0,
        r matches Some(i) ==> picked_index(addrs@, i as int),
{
    let mut k: usize = 0;
    while k < addrs.len()
        invariant
            k <= addrs@.len(),
            forall|j: int| 0 <= j < k ==> !(addrs@[j] is V4),
        decreases addrs@.len() - k,
    {
        if let IpCandidate::V4 { .. } = &addrs[k] {
            return Some(k);
        }
        k += 1;
    }
    if addrs.len() > 0 {
        Some(0)
    } else {
        None
    }
}

/// Builds the peer that a resolved advertisement describes, or `None` when
/// the advertisement exposes no address at all.
pub fn peer_from_resolved(adv: ResolvedAdvert) -> (r: Option<Peer>)
    ensures
        r is None <==> adv.addresses@.len() == 0,
        r matches Some(p) ==> peer_matches(p, adv),
{
    let ResolvedAdvert { fullname, port, addresses, nickname } = adv;
    match pick_address_index(&addresses) {
        None => None,
        Some(i) => {
            let ip = match &addresses[i] {
                IpCandidate::V4 { a, b, c, d } => ipv4_text(*a, *b, *c, *d),
                IpCandidate::Other { text } => {
                    let t: String = text.clone();
                    t
                },
            };
            let nick = match nickname {
                Some(n) => n,
                None => String::from_str("Unknown"),
            };
            let p = Peer { id: fullname, ip, port, nickname: nick, last_seen: 0 };
            proof {
                assert(picked_index(adv.addresses@, i as int) && p.ip@ == addr_text(
                    adv.addresses@[i as int],
                ));
            }
            Some(p)
        },
    }
}

/// Turns one browse event into the peer event to publish, if any: a
/// resolution with at least one address becomes a "peer found", a
/// withdrawal becomes a "peer lost" carrying the withdrawn fullname, and
/// everything else is ignored.
pub fn process_browse_event(event: BrowseEvent) -> (r: Option<PeerEvent>)
    ensures
        event matches BrowseEvent::Resolved(adv) ==> (match r {
            Some(PeerEvent::Found(p)) => peer_matches(p, adv),
            None => adv.addresses@.len() == 0,
            _ => false,
        }),
        event matches BrowseEvent::Removed(name) ==> (r matches Some(PeerEvent::Lost(n))
            && n@ == name@),
        event is Other ==> r is None,
{
    match event {
        BrowseEvent::Resolved(adv) => match peer_from_resolved(adv) {
            Some(p) => Some(PeerEvent::Found(p)),
            None => None,
        },
        BrowseEvent::Removed(name) => Some(PeerEvent::Lost(name)),
        BrowseEvent::Other => None,
    }
}

/// The address selection prefers IPv4: whenever an advertisement exposes
/// any IPv4 candidate — in particular one exposing both an IPv4 and another
/// address — the picked candidate is an IPv4 one.
pub proof fn lemma_selection_prefers_ipv4(addrs: Seq<IpCandidate>, i: int)
    requires
        picked_index(addrs, i),
        exists|j: int| 0 <= j < addrs.len() && addrs[j] is V4,
    ensures
        addrs[i] is V4,
{
}

/// A peer built from an advertisement with an IPv4 candidate carries IPv4
/// address text.
pub proof fn lemma_peer_ip_is_ipv4(p: Peer, adv: ResolvedAdvert)
    requires
        peer_matches(p, adv),
        exists|j: int| 0 <= j < adv.addresses@.len() && adv.addresses@[j] is V4,
    ensures
        exists|i: int|
            (#[trigger] picked_index(adv.addresses@, i)) && adv.addresses@[i] is V4 && p.ip@
                == addr_text(adv.addresses@[i]),
{
    let i = choose|i: int|
        #[trigger] picked_index(adv.addresses@, i) && p.ip@ == addr_text(adv.addresses@[i]);
    lemma_selection_prefers_ipv4(adv.addresses@, i);
}

/// A peer built from an advertisement without nickname metadata carries the
/// `"Unknown"` sentinel as its nickname.
pub proof fn lemma_nickname_defaults(p: Peer, adv: ResolvedAdvert)
    requires
        peer_matches(p, adv),
        adv.nickname is None,
    ensures
        p.nickname@ == "Unknown"@,
{
}

} // verus!
