//! The relay's configuration model: the relay itself and the domains that
//! it serves, each with the base64 AES key of its channel.

use vstd::prelude::*;
use vstd::string::*;

use crate::text::{decimal, push_decimal};

verus! {

/// The abstract value of a configured domain.
pub ghost struct DomainsView {
    pub domain: Seq<char>,
    pub base_64_aes: Seq<char>,
}

/// A domain served by the relay and the base64 text of its AES-256 key.
pub struct Domains {
    domain: String,
    base_64_aes: String,
}

impl View for Domains {
    type V = DomainsView;

    closed spec fn view(&self) -> DomainsView {
        DomainsView { domain: self.domain@, base_64_aes: self.base_64_aes@ }
    }
}

impl Clone for Domains {
    fn clone(&self) -> (res: Self)
        ensures
            res == *self,
    {
        Domains { domain: self.domain.clone(), base_64_aes: self.base_64_aes.clone() }
    }
}

impl Domains {
    pub fn new(domain: String, base_64_aes: String) -> (res: Domains)
        ensures
            res@ == (DomainsView { domain: domain@, base_64_aes: base_64_aes@ }),
    {
        Domains { domain, base_64_aes }
    }

    pub fn get_domain(self) -> (res: String)
        ensures
            res@ == self@.domain,
    {
        self.domain
    }

    pub fn get_base(self) -> (res: String)
        ensures
            res@ == self@.base_64_aes,
    {
        self.base_64_aes
    }

    /// The domain name, borrowed.
    pub fn domain_name(&self) -> (res: &String)
        ensures
            res@ == self@.domain,
    {
        &self.domain
    }

    /// The base64 key text, borrowed.
    pub fn base_key(&self) -> (res: &String)
        ensures
            res@ == self@.base_64_aes,
    {
        &self.base_64_aes
    }
}

/// The views of a sequence of domains.
pub open spec fn domains_views(domains: Seq<Domains>) -> Seq<DomainsView> {
    domains.map_values(|d: Domains| d@)
}

/// A copy of a list of domains.
pub fn clone_domains(domains: &Vec<Domains>) -> (res: Vec<Domains>)
    ensures
        res@ == domains@,
{
    let mut res: Vec<Domains> = Vec::new();
    let mut i: usize = 0;
    while i < domains.len()
        invariant
            i <= domains@.len(),
            res@ == domains@.take(i as int),
        decreases domains@.len() - i,
    {
        res.push(domains[i].clone());
        i = i + 1;
        assert(res@ =~= domains@.take(i as int));
    }
    assert(domains@.take(i as int) =~= domains@);
    res
}

/// The abstract value of the relay configuration.
pub ghost struct RelayView {
    pub multicast_address: Seq<char>,
    pub multicast_port: u16,
    pub network_interface: Seq<char>,
    pub configured_domains: Seq<DomainsView>,
}

/// The relay configuration: the multicast group it listens on, the network
/// interface, and the domains it serves.
pub struct Relay {
    multicast_address: String,
    multicast_port: u16,
    network_interface: String,
    configured_domains: Vec<Domains>,
}

impl Clone for Relay {
    fn clone(&self) -> (res: Self)
        ensures
            res@ == self@,
    {
        Relay {
            multicast_address: self.multicast_address.clone(),
            multicast_port: self.multicast_port,
            network_interface: self.network_interface.clone(),
            configured_domains: clone_domains(&self.configured_domains),
        }
    }
}

impl View for Relay {
    type V = RelayView;

    closed spec fn view(&self) -> RelayView {
        RelayView {
            multicast_address: self.multicast_address@,
            multicast_port: self.multicast_port,
            network_interface: self.network_interface@,
            configured_domains: domains_views(self.configured_domains@),
        }
    }
}

/// The one-line summary of a relay: multicast address, port and the network
/// interface, the last written twice.
pub open spec fn relay_summary(r: RelayView) -> Seq<char> {
    r.multicast_address + ", "@ + decimal(r.multicast_port as nat) + ", "@ + r.network_interface
        + ", "@ + r.network_interface
}

impl Relay {
    pub fn new(
        multicast_address: String,
        multicast_port: u16,
        network_interface: String,
        configured_domains: Vec<Domains>,
    ) -> (res: Relay)
        ensures
            res@ == (RelayView {
                multicast_address: multicast_address@,
                multicast_port: multicast_port,
                network_interface: network_interface@,
                configured_domains: domains_views(configured_domains@),
            }),
    {
        Relay { multicast_address, multicast_port, network_interface, configured_domains }
    }

    pub fn get_multicast_address(self) -> (res: String)
        ensures
            res@ == self@.multicast_address,
    {
        self.multicast_address
    }

    pub fn get_multicast_port(self) -> (res: u16)
        ensures
            res == self@.multicast_port,
    {
        self.multicast_port
    }

    pub fn get_network_interface(self) -> (res: String)
        ensures
            res@ == self@.network_interface,
    {
        self.network_interface
    }

    pub fn get_configured_domains(self) -> (res: Vec<Domains>)
        ensures
            domains_views(res@) == self@.configured_domains,
    {
        self.configured_domains
    }

    /// The configured domains, borrowed.
    pub fn configured_domains(&self) -> (res: &Vec<Domains>)
        ensures
            domains_views(res@) == self@.configured_domains,
    {
        &self.configured_domains
    }

    pub fn to_string(self) -> (res: String)
        ensures
            res@ == relay_summary(self@),
    {
        let mut s = self.multicast_address.clone();
        s.append(", ");
        push_decimal(&mut s, self.multicast_port as u64);
        s.append(", ");
        s.append(self.network_interface.as_str());
        s.append(", ");
        s.append(self.network_interface.as_str());
        s
    }
}

} // verus!
