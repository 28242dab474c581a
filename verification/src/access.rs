//! Source addresses and the allow-list that restricts them.

use vstd::prelude::*;

verus! {

/// An IP address, held as the number that its bytes spell in network order.
#[derive(Clone, Copy, Debug, PartialEq, Eq, Structural)]
pub enum IpAddress {
    V4(u32),
    V6(u128),
}

/// The number that four octets spell, most significant first.
pub open spec fn spec_from_octets(a: u8, b: u8, c: u8, d: u8) -> int {
    a * 0x100_0000 + b * 0x1_0000 + c * 0x100 + d
}

impl IpAddress {
    /// The IPv4 address `a.b.c.d`.
    pub fn from_octets(a: u8, b: u8, c: u8, d: u8) -> (ip: IpAddress)
        ensures
            ip == IpAddress::V4(spec_from_octets(a, b, c, d) as u32),
            spec_from_octets(a, b, c, d) <= u32::MAX,
    {
        let bits: u32 = (a as u32) * 0x100_0000 + (b as u32) * 0x1_0000 + (c as u32) * 0x100 + (
        d as u32);
        IpAddress::V4(bits)
    }
}

/// Where a request comes from.
#[derive(Clone, Copy, Debug, PartialEq, Eq, Structural)]
pub struct SocketAddress {
    pub ip: IpAddress,
    pub port: u16,
}

/// Whether some address of `list` has the IP `ip`.
pub open spec fn lists_ip(list: Seq<SocketAddress>, ip: IpAddress) -> bool {
    exists|i: int| 0 <= i < list.len() && (#[trigger] list[i]).ip == ip
}

/// Whether a source IP may authenticate: an empty list restricts nothing,
/// any other list admits the IPs it holds, whatever the port.
pub open spec fn permits(list: Seq<SocketAddress>, ip: IpAddress) -> bool {
    list.len() == 0 || lists_ip(list, ip)
}

/// The addresses that may authenticate, in the order in which they were
/// allowed. No address occurs twice.
pub struct AllowList {
    addresses: Vec<SocketAddress>,
}

impl View for AllowList {
    type V = Seq<SocketAddress>;

    closed spec fn view(&self) -> Seq<SocketAddress> {
        self.addresses@
    }
}

impl AllowList {
    /// No address occurs twice. A new list is so, and `allow` keeps it so.
    pub open spec fn wf(&self) -> bool {
        self@.no_duplicates()
    }

    /// The empty list, which lets every source through.
    pub fn new() -> (list: AllowList)
        ensures
            list@ == Seq::<SocketAddress>::empty(),
            list.wf(),
    {
        AllowList { addresses: Vec::new() }
    }

    /// How many addresses are listed.
    pub fn len(&self) -> (n: usize)
        ensures
            n == self@.len(),
    {
        self.addresses.len()
    }

    /// Whether no address is listed.
    pub fn is_empty(&self) -> (empty: bool)
        ensures
            empty == (self@.len() == 0),
    {
        self.addresses.len() == 0
    }

    /// Whether `address` is listed, port included.
    pub fn contains(&self, address: SocketAddress) -> (found: bool)
        ensures
            found == self@.contains(address),
    {
        let mut i: usize = 0;
        while i < self.addresses.len()
            invariant
                i <= self.addresses.len(),
                forall|j: int| 0 <= j < i ==> self.addresses@[j] != address,
            decreases self.addresses.len() - i,
        {
            if self.addresses[i] == address {
                return true;
            }
            i += 1;
        }
        false
    }

    /// Lists `address`, after those already there. An address that is
    /// listed already is not listed again.
    pub fn allow(&mut self, address: SocketAddress)
        ensures
            old(self).wf() ==> final(self).wf(),
            final(self)@ == if old(self)@.contains(address) {
                old(self)@
            } else {
                old(self)@.push(address)
            },
    {
        if !self.contains(address) {
            self.addresses.push(address);
        }
    }

    /// Whether a request from `ip` may go on to authenticate.
    pub fn is_allowed(&self, ip: IpAddress) -> (allowed: bool)
        ensures
            allowed == permits(self@, ip),
    {
        if self.addresses.len() == 0 {
            return true;
        }
        let mut i: usize = 0;
        while i < self.addresses.len()
            invariant
                i <= self.addresses.len(),
                forall|j: int| 0 <= j < i ==> (#[trigger] self.addresses@[j]).ip != ip,
            decreases self.addresses.len() - i,
        {
            if self.addresses[i].ip == ip {
                return true;
            }
            i += 1;
        }
        false
    }
}

/// An empty allow-list admits every IP.
pub proof fn lemma_empty_list_permits_all(ip: IpAddress)
    ensures
        permits(Seq::<SocketAddress>::empty(), ip),
{
}

/// A list of one address admits the IP of that address and no other.
pub proof fn lemma_single_address_permits_only_its_ip(address: SocketAddress, ip: IpAddress)
    ensures
        permits(seq![address], ip) <==> ip == address.ip,
{
    let list = seq![address];
    if ip == address.ip {
        assert(list[0].ip == ip);
    }
}

/// A list that is not empty admits exactly the IPs of its addresses.
pub proof fn lemma_permits_listed_ips_only(list: Seq<SocketAddress>, ip: IpAddress)
    requires
        list.len() > 0,
    ensures
        permits(list, ip) <==> lists_ip(list, ip),
{
}

/// The port of a request plays no part: allowing an address admits its IP.
pub proof fn lemma_allowed_address_is_permitted(list: Seq<SocketAddress>, address: SocketAddress)
    ensures
        permits(list.push(address), address.ip),
{
    let extended = list.push(address);
    assert(extended[list.len() as int].ip == address.ip);
}

} // verus!
