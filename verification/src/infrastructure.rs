//! The configuration as it is read from the relay's JSON file, and its
//! mapping onto the relay model.

use vstd::prelude::*;

use crate::models::{domains_views, Domains, DomainsView, Relay, RelayView};

verus! {

/// A configured domain as written in the configuration file.
pub struct DomainsDto {
    domain: String,
    base_64_aes: String,
}

impl View for DomainsDto {
    type V = DomainsView;

    closed spec fn view(&self) -> DomainsView {
        DomainsView { domain: self.domain@, base_64_aes: self.base_64_aes@ }
    }
}

impl Clone for DomainsDto {
    fn clone(&self) -> (res: Self)
        ensures
            res == *self,
    {
        DomainsDto { domain: self.domain.clone(), base_64_aes: self.base_64_aes.clone() }
    }
}

impl DomainsDto {
    /// A configured domain with its name and base64 key text.
    pub fn new(domain: String, base_64_aes: String) -> (res: DomainsDto)
        ensures
            res@ == (DomainsView { domain: domain@, base_64_aes: base_64_aes@ }),
    {
        DomainsDto { domain, base_64_aes }
    }

    pub fn get_domain(&self) -> (res: String)
        ensures
            res@ == self@.domain,
    {
        self.domain.clone()
    }

    pub fn get_aeskey(&self) -> (res: String)
        ensures
            res@ == self@.base_64_aes,
    {
        self.base_64_aes.clone()
    }
}

/// The views of a sequence of configured domains.
pub open spec fn domain_dtos_views(domains: Seq<DomainsDto>) -> Seq<DomainsView> {
    domains.map_values(|d: DomainsDto| d@)
}

fn clone_domain_dtos(domains: &Vec<DomainsDto>) -> (res: Vec<DomainsDto>)
    ensures
        res@ == domains@,
{
    let mut res: Vec<DomainsDto> = Vec::new();
    let mut i: usize = 0;
    while i < domains.len()
        invariant
            i <= domains@.len(),
            res@ == domains@.take(i as int),
        decreases domains@.len() - i,
    {
        res.push(domains[i].clone());
        i = i + 1;
        assert(res@ =~= domains@.take(i as int));
    }
    assert(domains@.take(i as int) =~= domains@);
    res
}

/// The relay configuration as written in the configuration file.
pub struct RelayDto {
    multicast_address: String,
    multicast_port: u16,
    network_interface: String,
    configured_domains: Vec<DomainsDto>,
}

impl View for RelayDto {
    type V = RelayView;

    closed spec fn view(&self) -> RelayView {
        RelayView {
            multicast_address: self.multicast_address@,
            multicast_port: self.multicast_port,
            network_interface: self.network_interface@,
            configured_domains: domain_dtos_views(self.configured_domains@),
        }
    }
}

impl Clone for RelayDto {
    fn clone(&self) -> (res: Self)
        ensures
            res@ == self@,
    {
        RelayDto {
            multicast_address: self.multicast_address.clone(),
            multicast_port: self.multicast_port,
            network_interface: self.network_interface.clone(),
            configured_domains: clone_domain_dtos(&self.configured_domains),
        }
    }
}

impl RelayDto {
    /// A relay configuration with the given fields.
    pub fn new(
        multicast_address: String,
        multicast_port: u16,
        network_interface: String,
        configured_domains: Vec<DomainsDto>,
    ) -> (res: RelayDto)
        ensures
            res@ == (RelayView {
                multicast_address: multicast_address@,
                multicast_port: multicast_port,
                network_interface: network_interface@,
                configured_domains: domain_dtos_views(configured_domains@),
            }),
    {
        RelayDto { multicast_address, multicast_port, network_interface, configured_domains }
    }

    pub fn get_multicast_address(&self) -> (res: String)
        ensures
            res@ == self@.multicast_address,
    {
        self.multicast_address.clone()
    }

    pub fn get_multicast_port(&self) -> (res: u16)
        ensures
            res == self@.multicast_port,
    {
        self.multicast_port
    }

    pub fn get_network_interface(&self) -> (res: String)
        ensures
            res@ == self@.network_interface,
    {
        self.network_interface.clone()
    }

    pub fn get_configured_domains(&self) -> (res: Vec<DomainsDto>)
        ensures
            domain_dtos_views(res@) == self@.configured_domains,
    {
        clone_domain_dtos(&self.configured_domains)
    }
}

/// The model of one configured domain: the same name and key text.
pub fn dto_to_domains(domain_dto: DomainsDto) -> (res: Domains)
    ensures
        res@ == domain_dto@,
{
    let cloned_to_domains = domain_dto.clone();
    Domains::new(cloned_to_domains.get_domain(), cloned_to_domains.get_aeskey())
}

/// The relay model of a configuration: every field, and every configured
/// domain in order, carried over unchanged.
pub fn dto_to_relay(relay_dto: RelayDto) -> (res: Relay)
    ensures
        res@ == relay_dto@,
{
    let cloned_relay_dto = relay_dto.clone();
    let dtos = cloned_relay_dto.get_configured_domains();
    let mut configured_domain: Vec<Domains> = Vec::new();
    let mut i: usize = 0;
    while i < dtos.len()
        invariant
            i <= dtos@.len(),
            configured_domain@.len() == i,
            forall|j: int| 0 <= j < i ==> #[trigger] configured_domain@[j]@ == dtos@[j]@,
        decreases dtos@.len() - i,
    {
        let d = dtos[i].clone();
        configured_domain.push(dto_to_domains(d));
        i = i + 1;
    }
    assert(domains_views(configured_domain@) =~= domain_dtos_views(dtos@));
    Relay::new(
        cloned_relay_dto.get_multicast_address(),
        cloned_relay_dto.get_multicast_port(),
        cloned_relay_dto.get_network_interface(),
        configured_domain,
    )
}

} // verus!
