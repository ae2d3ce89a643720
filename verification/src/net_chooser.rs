//! The choice of the network interface that the relay listens on: the IPv4
//! addresses of the host's interfaces, listed for the user, one of which is
//! selected by its number.

use network_interface::{Addr, NetworkInterface, NetworkInterfaceConfig};
use vstd::prelude::*;
use vstd::string::*;

use crate::text::{
    decimal, lemma_parse_decimal, lemma_trimmed_line, lemma_trimmed_no_white_space, parse_u32,
    parse_u32_spec, push_decimal, trimmed,
};

verus! {

/// An address of a host interface.
#[derive(Clone, Copy)]
pub enum HostAddress {
    /// An IPv4 address, by its four octets.
    V4([u8; 4]),
    /// An IPv6 address, by its eight segments.
    V6([u16; 8]),
}

/// A network interface of the host, with all its addresses.
pub struct HostInterface {
    pub name: String,
    pub addrs: Vec<HostAddress>,
}

/// `NetworkInterfaceConfig::show` of `network_interface::NetworkInterface`
/// (network-interface 1.x), each interface turned into its name and
/// addresses. The interfaces depend on the machine, and the crate collects
/// them in a hash map: nothing is claimed of them. A failed query is `None`.
#[verifier::external_body]
fn host_interfaces() -> (res: Option<Vec<HostInterface>>) {
    let shown = NetworkInterface::show().ok()?;
    Some(
        shown.into_iter().map(
            |itf| HostInterface {
                name: itf.name,
                addrs: itf.addr.into_iter().map(
                    |a| match a {
                        Addr::V4(v4) => HostAddress::V4(v4.ip.octets()),
                        Addr::V6(v6) => HostAddress::V6(v6.ip.segments()),
                    },
                ).collect(),
            },
        ).collect(),
    )
}

/// The dotted-decimal text of an IPv4 address, as `Ipv4Addr` displays it.
pub open spec fn dotted_quad(octets: Seq<u8>) -> Seq<char> {
    decimal(octets[0] as nat).push('.') + decimal(octets[1] as nat).push('.') + decimal(
        octets[2] as nat,
    ).push('.') + decimal(octets[3] as nat)
}

/// The dotted-decimal text of an IPv4 address.
pub fn ipv4_text(octets: [u8; 4]) -> (res: String)
    ensures
        res@ == dotted_quad(octets@),
{
    let mut s = String::new();
    push_decimal(&mut s, octets[0] as u64);
    s.push('.');
    push_decimal(&mut s, octets[1] as u64);
    s.push('.');
    push_decimal(&mut s, octets[2] as u64);
    s.push('.');
    push_decimal(&mut s, octets[3] as u64);
    s
}

/// The abstract value of a listed interface.
pub ghost struct NetWorkInterfaceView {
    pub network_interface: Seq<char>,
    pub multicast_address: Seq<char>,
}

/// An interface that the relay can listen on: its name and an IPv4 address.
pub struct NetWorkInterface {
    network_interface: String,
    multicast_address: String,
}

impl View for NetWorkInterface {
    type V = NetWorkInterfaceView;

    closed spec fn view(&self) -> NetWorkInterfaceView {
        NetWorkInterfaceView {
            network_interface: self.network_interface@,
            multicast_address: self.multicast_address@,
        }
    }
}

impl NetWorkInterface {
    pub fn new(network_interface: String, multicast_address: String) -> (res: NetWorkInterface)
        ensures
            res@ == (NetWorkInterfaceView {
                network_interface: network_interface@,
                multicast_address: multicast_address@,
            }),
    {
        NetWorkInterface { network_interface, multicast_address }
    }

    pub fn get_network_interface(&self) -> (res: String)
        ensures
            res@ == self@.network_interface,
    {
        self.network_interface.clone()
    }

    pub fn get_multicast_address(&self) -> (res: String)
        ensures
            res@ == self@.multicast_address,
    {
        self.multicast_address.clone()
    }

    /// `<interface>, <address>`.
    pub fn to_string(&self) -> (res: String)
        ensures
            res@ == self@.network_interface + ", "@ + self@.multicast_address,
    {
        let mut s = self.network_interface.clone();
        s.append(", ");
        s.append(self.multicast_address.as_str());
        s
    }
}

/// The listed interfaces of one host interface: one per IPv4 address, in
/// order; IPv6 addresses are left out.
pub open spec fn host_entries(name: Seq<char>, addrs: Seq<HostAddress>) -> Seq<
    NetWorkInterfaceView,
>
    decreases addrs.len(),
{
    if addrs.len() == 0 {
        Seq::empty()
    } else {
        let rest = host_entries(name, addrs.drop_last());
        match addrs.last() {
            HostAddress::V4(octets) => rest.push(
                NetWorkInterfaceView { network_interface: name, multicast_address: dotted_quad(octets@) },
            ),
            HostAddress::V6(_) => rest,
        }
    }
}

/// The entry that an IPv4 address of interface `name` is listed as.
pub open spec fn ipv4_entry(name: Seq<char>, octets: Seq<u8>) -> NetWorkInterfaceView {
    NetWorkInterfaceView { network_interface: name, multicast_address: dotted_quad(octets) }
}

/// One address alone lists as one entry when it is IPv4, and as none when
/// it is IPv6.
pub proof fn law_single_address_entries(name: Seq<char>, addr: HostAddress)
    ensures
        host_entries(name, seq![addr]) == match addr {
            HostAddress::V4(octets) => seq![ipv4_entry(name, octets@)],
            HostAddress::V6(_) => Seq::<NetWorkInterfaceView>::empty(),
        },
{
    assert(seq![addr].drop_last() =~= Seq::<HostAddress>::empty());
    assert(seq![addr].last() == addr);
    assert(host_entries(name, Seq::<HostAddress>::empty()) == Seq::<NetWorkInterfaceView>::empty());
    match addr {
        HostAddress::V4(octets) => {
            assert(Seq::<NetWorkInterfaceView>::empty().push(ipv4_entry(name, octets@))
                =~= seq![ipv4_entry(name, octets@)]);
        },
        HostAddress::V6(_) => {},
    }
}

/// The entries of two runs of addresses of one interface are the entries of
/// the first run followed by those of the second: no address, IPv6 or not,
/// changes how the addresses after it are listed.
pub proof fn law_host_entries_concat(name: Seq<char>, a: Seq<HostAddress>, b: Seq<HostAddress>)
    ensures
        host_entries(name, a + b) == host_entries(name, a) + host_entries(name, b),
    decreases b.len(),
{
    if b.len() == 0 {
        assert(a + b =~= a);
        assert(host_entries(name, a) + host_entries(name, b) =~= host_entries(name, a));
    } else {
        assert((a + b).drop_last() =~= a + b.drop_last());
        assert((a + b).last() == b.last());
        law_host_entries_concat(name, a, b.drop_last());
        match b.last() {
            HostAddress::V4(octets) => {
                assert(host_entries(name, a) + host_entries(name, b) =~= (host_entries(name, a)
                    + host_entries(name, b.drop_last())).push(ipv4_entry(name, octets@)));
            },
            HostAddress::V6(_) => {},
        }
    }
}

/// The listed interfaces of all host interfaces, in order.
pub open spec fn ipv4_entries(hosts: Seq<HostInterface>) -> Seq<NetWorkInterfaceView>
    decreases hosts.len(),
{
    if hosts.len() == 0 {
        Seq::empty()
    } else {
        ipv4_entries(hosts.drop_last()) + host_entries(hosts.last().name@, hosts.last().addrs@)
    }
}

/// One host interface alone lists as the entries of its addresses.
pub proof fn law_single_host_entries(host: HostInterface)
    ensures
        ipv4_entries(seq![host]) == host_entries(host.name@, host.addrs@),
{
    assert(seq![host].drop_last() =~= Seq::<HostInterface>::empty());
    assert(seq![host].last() == host);
    assert(ipv4_entries(Seq::<HostInterface>::empty()) == Seq::<NetWorkInterfaceView>::empty());
    assert(Seq::<NetWorkInterfaceView>::empty() + host_entries(host.name@, host.addrs@)
        =~= host_entries(host.name@, host.addrs@));
}

/// The entries of two runs of host interfaces are the entries of the first
/// run followed by those of the second.
pub proof fn law_ipv4_entries_concat(a: Seq<HostInterface>, b: Seq<HostInterface>)
    ensures
        ipv4_entries(a + b) == ipv4_entries(a) + ipv4_entries(b),
    decreases b.len(),
{
    if b.len() == 0 {
        assert(a + b =~= a);
        assert(ipv4_entries(a) + ipv4_entries(b) =~= ipv4_entries(a));
    } else {
        assert((a + b).drop_last() =~= a + b.drop_last());
        assert((a + b).last() == b.last());
        law_ipv4_entries_concat(a, b.drop_last());
        assert(ipv4_entries(a) + ipv4_entries(b) =~= ipv4_entries(a) + ipv4_entries(b.drop_last())
            + host_entries(b.last().name@, b.last().addrs@));
    }
}

/// Every IPv4 address of every host interface is listed, with its
/// interface's name, wherever it stands among the interface's addresses.
pub proof fn law_every_ipv4_address_listed(hosts: Seq<HostInterface>, i: int, j: int, octets: [u8; 4])
    requires
        0 <= i < hosts.len(),
        0 <= j < hosts[i].addrs@.len(),
        hosts[i].addrs@[j] == HostAddress::V4(octets),
    ensures
        ipv4_entries(hosts).contains(ipv4_entry(hosts[i].name@, octets@)),
{
    let h = hosts[i];
    let addrs = h.addrs@;
    let e = ipv4_entry(h.name@, octets@);
    assert(addrs =~= addrs.take(j) + seq![addrs[j]] + addrs.skip(j + 1));
    law_host_entries_concat(h.name@, addrs.take(j) + seq![addrs[j]], addrs.skip(j + 1));
    law_host_entries_concat(h.name@, addrs.take(j), seq![addrs[j]]);
    law_single_address_entries(h.name@, addrs[j]);
    let front = host_entries(h.name@, addrs.take(j));
    let mine = host_entries(h.name@, addrs);
    assert(mine[front.len() as int] == e);
    assert(hosts =~= hosts.take(i) + seq![h] + hosts.skip(i + 1));
    law_ipv4_entries_concat(hosts.take(i) + seq![h], hosts.skip(i + 1));
    law_ipv4_entries_concat(hosts.take(i), seq![h]);
    law_single_host_entries(h);
    let before = ipv4_entries(hosts.take(i));
    assert(ipv4_entries(hosts)[(before.len() + front.len()) as int] == e);
}

/// The views of a sequence of listed interfaces.
pub open spec fn interfaces_views(list: Seq<NetWorkInterface>) -> Seq<NetWorkInterfaceView> {
    list.map_values(|n: NetWorkInterface| n@)
}

/// The interfaces offered to the user.
pub struct NetWorkInterfacesList {
    list: Vec<NetWorkInterface>,
}

impl View for NetWorkInterfacesList {
    type V = Seq<NetWorkInterfaceView>;

    closed spec fn view(&self) -> Seq<NetWorkInterfaceView> {
        interfaces_views(self.list@)
    }
}

/// What the user's line selects: the trimmed line read as a `u32`.
pub open spec fn selection_spec(line: Seq<char>) -> Option<u32> {
    parse_u32_spec(trimmed(line))
}

impl NetWorkInterfacesList {
    /// The IPv4 interfaces of this host, or `None` when the host's
    /// interfaces cannot be read.
    pub fn new() -> (res: Option<NetWorkInterfacesList>)
        ensures
            res matches Some(list) ==> exists|hosts: Seq<HostInterface>|
                list@ == #[trigger] ipv4_entries(hosts),
    {
        match host_interfaces() {
            Some(hosts) => Some(Self::from_host_interfaces(&hosts)),
            None => None,
        }
    }

    /// The list made of every IPv4 address of the given host interfaces,
    /// each with its interface's name, in order.
    pub fn from_host_interfaces(hosts: &Vec<HostInterface>) -> (res: NetWorkInterfacesList)
        ensures
            res@ == ipv4_entries(hosts@),
    {
        let mut list: Vec<NetWorkInterface> = Vec::new();
        let mut i: usize = 0;
        while i < hosts.len()
            invariant
                i <= hosts@.len(),
                interfaces_views(list@) == ipv4_entries(hosts@.take(i as int)),
            decreases hosts@.len() - i,
        {
            let host = &hosts[i];
            let ghost before = interfaces_views(list@);
            let mut j: usize = 0;
            assert(host.addrs@.take(0) =~= Seq::<HostAddress>::empty());
            assert(before + host_entries(host.name@, host.addrs@.take(0)) =~= before);
            while j < host.addrs.len()
                invariant
                    j <= host.addrs@.len(),
                    interfaces_views(list@) == before + host_entries(
                        host.name@,
                        host.addrs@.take(j as int),
                    ),
                decreases host.addrs@.len() - j,
            {
                let ghost prev = list@;
                assert(host.addrs@.take(j + 1).drop_last() =~= host.addrs@.take(j as int));
                match host.addrs[j] {
                    HostAddress::V4(octets) => {
                        list.push(NetWorkInterface::new(host.name.clone(), ipv4_text(octets)));
                        assert(interfaces_views(list@) =~= interfaces_views(prev).push(
                            list@.last()@,
                        ));
                    },
                    HostAddress::V6(_) => {},
                }
                j = j + 1;
            }
            assert(host.addrs@.take(j as int) =~= host.addrs@);
            assert(hosts@.take(i + 1).drop_last() =~= hosts@.take(i as int));
            i = i + 1;
        }
        assert(hosts@.take(i as int) =~= hosts@);
        NetWorkInterfacesList { list }
    }

    pub fn add(&mut self, network_interface: String, multicast_address: String)
        ensures
            final(self)@ == old(self)@.push(
                NetWorkInterfaceView {
                    network_interface: network_interface@,
                    multicast_address: multicast_address@,
                },
            ),
    {
        let ghost prev = self.list@;
        self.list.push(NetWorkInterface::new(network_interface, multicast_address));
        assert(interfaces_views(self.list@) =~= interfaces_views(prev).push(self.list@.last()@));
    }

    /// The number of listed interfaces.
    pub fn len(&self) -> (res: usize)
        ensures
            res == self@.len(),
    {
        self.list.len()
    }

    /// The listed interface at `index`.
    pub fn get(&self, index: usize) -> (res: &NetWorkInterface)
        requires
            index < self@.len(),
        ensures
            res@ == self@[index as int],
    {
        &self.list[index]
    }

    /// The interface that the user selected by its number.
    pub fn select(&self, index: u32) -> (res: &NetWorkInterface)
        requires
            index < self@.len(),
        ensures
            res@ == self@[index as int],
    {
        &self.list[index as usize]
    }

    /// The menu line of entry `index`: its number, ` : ` and the interface name.
    pub fn menu_entry(&self, index: usize) -> (res: String)
        requires
            index < self@.len(),
        ensures
            res@ == decimal(index as nat) + " : "@ + self@[index as int].network_interface,
    {
        let mut s = String::new();
        push_decimal(&mut s, index as u64);
        s.append(" : ");
        s.append(self.list[index].network_interface.as_str());
        s
    }

    /// The number that a line typed by the user selects: the line without
    /// its surrounding white space, read as a `u32`.
    pub fn parse_input(line: &str) -> (res: Option<u32>)
        ensures
            res == selection_spec(line@),
    {
        parse_u32(line.trim())
    }
}

/// Typing the number shown in front of a menu entry, with or without the
/// line's end, selects that entry.
pub proof fn lemma_menu_number_selects(index: u32)
    ensures
        selection_spec(decimal(index as nat)) == Some(index),
        selection_spec(decimal(index as nat).push('\n')) == Some(index),
{
    lemma_parse_decimal(index);
    lemma_trimmed_no_white_space(decimal(index as nat));
    lemma_trimmed_line(decimal(index as nat), '\n');
}

} // verus!
