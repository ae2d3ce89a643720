//! Decisions of the relay's multicast listener: which announcements are
//! understood, which domains may connect, and where to connect.

use vstd::prelude::*;
use vstd::string::*;

use crate::models::{domains_views, Domains, DomainsView};
use crate::text::{decimal, push_decimal};

verus! {

/// What `regex::Regex::new(pattern)` followed by `captures(text)` gives
/// (regex 1.x): `None` when the pattern does not compile or does not match,
/// else every capture group in order (group 0 is the whole match), `None`
/// for a group that took no part in the match.
pub uninterp spec fn regex_captures_of(pattern: Seq<char>, text: Seq<char>) -> Option<
    Seq<Option<Seq<char>>>,
>;

/// `regex::Regex::new` then `Regex::captures`, with each group turned into
/// an owned string. Claimed: the result is the named capture list.
#[verifier::external_body]
pub(crate) fn regex_captures(pattern: &str, text: &str) -> (res: Option<Vec<Option<String>>>)
    ensures
        res.deep_view() == regex_captures_of(pattern@, text@),
{
    match regex::Regex::new(pattern) {
        Ok(re) => re.captures(text).map(
            |caps| caps.iter().map(|m| m.map(|m| m.as_str().to_string())).collect(),
        ),
        Err(_) => None,
    }
}

/// Capture group `i` of a capture list, `None` where there is none.
pub open spec fn capture_group(caps: Seq<Option<Seq<char>>>, i: int) -> Option<Seq<char>> {
    if 0 <= i < caps.len() {
        caps[i]
    } else {
        None
    }
}

/// The announcement that a server sends to the multicast group:
/// `ECHO <port> <domain>`.
pub const ECHO_PATTERN: &'static str = r"^ECHO[\x20](\d{1,5})[\x20]([a-zA-Z\d.]{5,200})";

/// The port text and domain of an announcement, as the pattern captures them.
pub open spec fn echo_request(msg: Seq<char>) -> Option<(Seq<char>, Seq<char>)> {
    match regex_captures_of(ECHO_PATTERN@, msg) {
        Some(caps) => match (capture_group(caps, 1), capture_group(caps, 2)) {
            (Some(port), Some(domain)) => Some((port, domain)),
            _ => None,
        },
        None => None,
    }
}

/// An announcement's port text and domain are capture groups 1 and 2 of the
/// announcement pattern on the message as received, whatever else the
/// message holds (a line end after the domain included); a message that the
/// pattern does not match is no announcement.
pub proof fn law_echo_request_is_pattern_groups(msg: Seq<char>)
    ensures
        regex_captures_of(ECHO_PATTERN@, msg) matches Some(caps) ==> (capture_group(caps, 1)
            matches Some(port) ==> (capture_group(caps, 2) matches Some(domain) ==> echo_request(
            msg,
        ) == Some((port, domain)))),
        regex_captures_of(ECHO_PATTERN@, msg) is None ==> echo_request(msg) is None,
        echo_request(msg) matches Some((port, domain)) ==> (regex_captures_of(ECHO_PATTERN@, msg)
            matches Some(caps) && capture_group(caps, 1) == Some(port) && capture_group(caps, 2)
            == Some(domain)),
{
}

/// Capture group `i` of a capture list, copied out.
pub(crate) fn group_at(caps: &Vec<Option<String>>, i: usize) -> (res: Option<String>)
    ensures
        res.deep_view() == capture_group(caps.deep_view(), i as int),
{
    if i < caps.len() {
        match &caps[i] {
            Some(g) => Some(g.clone()),
            None => None,
        }
    } else {
        None
    }
}

/// Reads an announcement: the port text and the domain, or `None` when the
/// message does not follow the announcement pattern.
pub fn parse_echo(msg: &str) -> (res: Option<(String, String)>)
    ensures
        match echo_request(msg@) {
            Some((port, domain)) => res matches Some((p, d)) && p@ == port && d@ == domain,
            None => res is None,
        },
{
    let pattern = ECHO_PATTERN;
    match regex_captures(pattern, msg) {
        Some(caps) => match (group_at(&caps, 1), group_at(&caps, 2)) {
            (Some(port), Some(domain)) => Some((port, domain)),
            _ => None,
        },
        None => None,
    }
}

/// The first configured domain with the given name.
pub open spec fn find_domain(domains: Seq<DomainsView>, name: Seq<char>) -> Option<DomainsView>
    decreases domains.len(),
{
    if domains.len() == 0 {
        None
    } else if domains[0].domain == name {
        Some(domains[0])
    } else {
        find_domain(domains.drop_first(), name)
    }
}

/// Some configured domain has the given name.
pub open spec fn domain_listed(domains: Seq<DomainsView>, name: Seq<char>) -> bool {
    exists|i: int| 0 <= i < domains.len() && #[trigger] domains[i].domain == name
}

/// The domain that stands for "no configured domain": empty name and key.
pub open spec fn unknown_domain() -> DomainsView {
    DomainsView { domain: Seq::empty(), base_64_aes: Seq::empty() }
}

/// A domain is allowed exactly when looking it up finds a configured domain,
/// and what the lookup finds carries the name asked for.
pub proof fn lemma_allowed_iff_found(domains: Seq<DomainsView>, name: Seq<char>)
    ensures
        domain_listed(domains, name) <==> find_domain(domains, name) is Some,
        find_domain(domains, name) matches Some(d) ==> d.domain == name && domains.contains(d),
    decreases domains.len(),
{
    if domains.len() > 0 {
        let rest = domains.drop_first();
        lemma_allowed_iff_found(rest, name);
        if domain_listed(domains, name) && domains[0].domain != name {
            let i = choose|i: int| 0 <= i < domains.len() && #[trigger] domains[i].domain == name;
            assert(rest[i - 1].domain == name);
        }
        if domain_listed(rest, name) {
            let i = choose|i: int| 0 <= i < rest.len() && #[trigger] rest[i].domain == name;
            assert(domains[i + 1].domain == name);
        }
        if let Some(d) = find_domain(rest, name) {
            if domains[0].domain != name {
                let k = choose|k: int| 0 <= k < rest.len() && rest[k] == d;
                assert(domains[k + 1] == d);
            }
        }
    }
}

/// Index of the first domain named `name`.
pub(crate) fn domain_position(domains: &Vec<Domains>, name: &String) -> (res: Option<usize>)
    ensures
        match find_domain(domains_views(domains@), name@) {
            Some(d) => res matches Some(i) && i < domains@.len() && domains@[i as int]@ == d,
            None => res is None,
        },
{
    let ghost views = domains_views(domains@);
    let mut i: usize = 0;
    assert(views.skip(0) =~= views);
    while i < domains.len()
        invariant
            i <= domains@.len(),
            views == domains_views(domains@),
            views.len() == domains@.len(),
            find_domain(views, name@) == find_domain(views.skip(i as int), name@),
        decreases domains@.len() - i,
    {
        assert(views.skip(i as int)[0] == domains@[i as int]@);
        let candidate: &String = domains[i].domain_name();
        let same: bool = candidate.eq(name);
        if same {
            return Some(i);
        }
        assert(views.skip(i as int).drop_first() =~= views.skip(i + 1));
        i = i + 1;
    }
    assert(views.skip(i as int).len() == 0);
    None
}

/// Whether a domain is one of the configured domains.
pub fn is_domain_allowed(domains: Vec<Domains>, domain_request: String) -> (res: bool)
    ensures
        res == domain_listed(domains_views(domains@), domain_request@),
{
    proof {
        lemma_allowed_iff_found(domains_views(domains@), domain_request@);
    }
    domain_position(&domains, &domain_request).is_some()
}

/// The first configured domain with the requested name, or a domain with an
/// empty name and key when there is none.
pub fn get_domain(domains: Vec<Domains>, domain_request: String) -> (res: Domains)
    ensures
        res@ == match find_domain(domains_views(domains@), domain_request@) {
            Some(d) => d,
            None => unknown_domain(),
        },
{
    match domain_position(&domains, &domain_request) {
        Some(i) => domains[i].clone(),
        None => Domains::new(String::new(), String::new()),
    }
}

/// `host:port`, the address that sockets are bound or connected to.
pub fn socket_address(host: &str, port: u16) -> (res: String)
    ensures
        res@ == host@ + ":"@ + decimal(port as nat),
{
    let mut s = String::from_str(host);
    s.append(":");
    push_decimal(&mut s, port as u64);
    s
}

/// What the listener does with one multicast message.
pub enum EchoAction {
    /// Connect to `address` (`<domain>:<port>`) and register the connection
    /// under `domain`.
    Connect { address: String, port: String, domain: Domains },
    /// The announcement names a domain that is not configured.
    Rejected { port: String, name: String },
    /// The message is not an announcement.
    Unrecognized,
}

/// Decides what to do with one multicast message, given the configured
/// domains: an announcement of a configured domain leads to a connection to
/// `<domain>:<port>`; one of another domain is rejected; anything else is
/// not understood.
pub fn on_multicast_message(domains: &Vec<Domains>, msg: &str) -> (res: EchoAction)
    ensures
        match echo_request(msg@) {
            None => res is Unrecognized,
            Some((port, name)) => match find_domain(domains_views(domains@), name) {
                Some(d) => res matches EchoAction::Connect { address, port: p, domain } && address@
                    == name + ":"@ + port && p@ == port && domain@ == d,
                None => res matches EchoAction::Rejected { port: p, name: n } && p@ == port
                    && n@ == name,
            },
        },
{
    match parse_echo(msg) {
        None => EchoAction::Unrecognized,
        Some((port, name)) => {
            match domain_position(domains, &name) {
                Some(i) => {
                    let mut address = name.clone();
                    address.append(":");
                    address.append(port.as_str());
                    EchoAction::Connect { address, port, domain: domains[i].clone() }
                },
                None => EchoAction::Rejected { port, name },
            }
        },
    }
}

} // verus!
