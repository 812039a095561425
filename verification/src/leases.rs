//! Who the clients of the network are, by the leases of its DHCP servers.

use vstd::hash_map::StringHashMap;
use vstd::prelude::*;

verus! {

/// A lease as a device lists it.
pub struct DhcpLease {
    /// The client that uses the address now.
    pub active_mac_address: Option<String>,
    /// The name that the client gave itself.
    pub host_name: Option<String>,
    /// The address that is leased.
    pub address: String,
}

/// What is known of a client.
#[derive(Debug)]
pub struct IpLease {
    pub hostname: String,
    pub ip: String,
}

/// The lease that a listed row makes known, with the hardware address of its client. A row that
/// is not in use, or whose client gave no name, makes none known.
pub open spec fn known_lease(row: DhcpLease) -> Option<(String, IpLease)> {
    match (row.active_mac_address, row.host_name) {
        (Some(mac_address), Some(hostname)) => Some(
            (mac_address, IpLease { hostname, ip: row.address }),
        ),
        _ => None,
    }
}

/// The lease that a listed row makes known.
pub fn collect_ip_lease(row: DhcpLease) -> (lease: Option<(String, IpLease)>)
    ensures
        lease == known_lease(row),
        lease is Some <==> row.active_mac_address is Some && row.host_name is Some,
        lease matches Some((mac_address, known)) ==> {
            &&& row.active_mac_address == Some(mac_address)
            &&& row.host_name == Some(known.hostname)
            &&& known.ip == row.address
        },
{
    match (row.active_mac_address, row.host_name) {
        (Some(mac_address), Some(hostname)) => Some(
            (mac_address, IpLease { hostname, ip: row.address }),
        ),
        _ => None,
    }
}

/// The known leases, by the hardware address of the client.
pub struct IpLeases {
    by_mac_address: StringHashMap<IpLease>,
}

impl View for IpLeases {
    type V = Map<Seq<char>, IpLease>;

    closed spec fn view(&self) -> Map<Seq<char>, IpLease> {
        self.by_mac_address@
    }
}

impl IpLeases {
    /// No lease is known.
    pub fn new() -> (leases: Self)
        ensures
            leases@ == Map::<Seq<char>, IpLease>::empty(),
    {
        IpLeases { by_mac_address: StringHashMap::new() }
    }

    /// Takes the next item of the stream of leases. Gives whether there may be more: a lease
    /// replaces the one that its client had, the end of the stream (`None`) changes nothing.
    pub fn receive(&mut self, item: Option<(String, IpLease)>) -> (go_on: bool)
        ensures
            go_on <==> item is Some,
            match item {
                Some((mac_address, lease)) => final(self)@ == old(self)@.insert(
                    mac_address@,
                    lease,
                ),
                None => final(self)@ == old(self)@,
            },
    {
        match item {
            Some((mac_address, lease)) => {
                self.by_mac_address.insert(mac_address, lease);
                true
            },
            None => false,
        }
    }

    /// The lease of a client.
    pub fn get(&self, mac_address: &str) -> (lease: Option<&IpLease>)
        ensures
            match lease {
                Some(l) => self@.contains_key(mac_address@) && *l == self@[mac_address@],
                None => !self@.contains_key(mac_address@),
            },
    {
        self.by_mac_address.get(mac_address)
    }

    /// How many clients have a lease.
    pub fn len(&self) -> (count: usize)
        ensures
            count == self@.len(),
    {
        self.by_mac_address.len()
    }
}

/// A row makes a lease known if and only if it has a client and that client a name, whatever they
/// are. The lease is that of the client, with its name and the address of the row.
pub proof fn named_active_rows_are_known(row: DhcpLease)
    ensures
        known_lease(row) is Some <==> row.active_mac_address is Some && row.host_name is Some,
        known_lease(row) matches Some((mac_address, known)) ==> {
            &&& row.active_mac_address == Some(mac_address)
            &&& row.host_name == Some(known.hostname)
            &&& known.ip == row.address
        },
{
}

} // verus!
