use dashmap::DashSet;
use vstd::prelude::*;

verus! {

/// `dashmap::DashSet`, taken as it is: the verifier sees nothing inside it.
#[verifier::external_type_specification]
#[verifier::external_body]
#[verifier::reject_recursive_types(K)]
#[verifier::reject_recursive_types(S)]
pub struct ExDashSet<K, S>(DashSet<K, S>);

/// A network address as the pair that the set of open connections holds: the
/// sixteen address bytes as one number, and the port.
pub type AddrKey = (u128, u16);

/// The addresses that the set of open connections holds.
pub uninterp spec fn open_addresses(s: DashSet<(u128, u16)>) -> Set<(u128, u16)>;

/// `DashSet::new`: a fresh set holds nothing.
#[verifier::external_body]
fn addresses_new() -> (fresh: DashSet<(u128, u16)>)
    ensures
        (open_addresses(fresh) == Set::<(u128, u16)>::empty()),
{
    DashSet::new()
}

/// `DashSet::insert`: the key is in the set afterwards. The result is true
/// exactly when it was not there before.
#[verifier::external_body]
fn addresses_insert(s: &mut DashSet<(u128, u16)>, addr: (u128, u16)) -> (was_new: bool)
    ensures
        open_addresses(*final(s)) == open_addresses(*old(s)).insert(addr),
        was_new == !open_addresses(*old(s)).contains(addr),
{
    s.insert(addr)
}

/// `DashSet::remove`: the key is not in the set afterwards. The result is
/// true exactly when it was there before.
#[verifier::external_body]
fn addresses_remove(s: &mut DashSet<(u128, u16)>, addr: (u128, u16)) -> (was_there: bool)
    ensures
        open_addresses(*final(s)) == open_addresses(*old(s)).remove(addr),
        was_there == open_addresses(*old(s)).contains(addr),
{
    s.remove(&addr).is_some()
}

/// `DashSet::contains`.
#[verifier::external_body]
fn addresses_contains(s: &DashSet<(u128, u16)>, addr: (u128, u16)) -> (found: bool)
    ensures
        found == open_addresses(*s).contains(addr),
{
    s.contains(&addr)
}

/// The network address of a client: an IPv6 address, or an IPv4 address
/// mapped into IPv6, as one number, and the port.
#[derive(Clone, Copy, Debug, PartialEq, Eq, Structural)]
pub struct RemoteAddr {
    pub ip: u128,
    pub port: u16,
}

impl RemoteAddr {
    pub open spec fn key(&self) -> AddrKey {
        (self.ip, self.port)
    }
}

/// The addresses that have a live connection.
pub struct OpenConnections {
    addresses: DashSet<(u128, u16)>,
}

impl OpenConnections {
    /// The addresses that have a live connection.
    pub closed spec fn view(&self) -> Set<AddrKey> {
        open_addresses(self.addresses)
    }

    pub fn new() -> (open: OpenConnections)
        ensures
            open@ == Set::<AddrKey>::empty(),
    {
        OpenConnections { addresses: addresses_new() }
    }

    pub fn is_open(&self, address: RemoteAddr) -> (found: bool)
        ensures
            found == self@.contains(address.key()),
    {
        addresses_contains(&self.addresses, (address.ip, address.port))
    }

    /// Registers `address` as open, unless it already is: an address has one
    /// live connection at most. The result says whether it was registered now;
    /// where it is false nothing has changed.
    pub fn claim(&mut self, address: RemoteAddr) -> (claimed: bool)
        ensures
            claimed == !old(self)@.contains(address.key()),
            final(self)@ == old(self)@.insert(address.key()),
            !claimed ==> final(self)@ == old(self)@,
    {
        let claimed = addresses_insert(&mut self.addresses, (address.ip, address.port));
        assert(!claimed ==> self@ =~= old(self)@);
        claimed
    }

    /// Releases `address`. The result says whether it was open; where it was
    /// not, nothing changes.
    pub fn release(&mut self, address: RemoteAddr) -> (was_open: bool)
        ensures
            was_open == old(self)@.contains(address.key()),
            final(self)@ == old(self)@.remove(address.key()),
            !was_open ==> final(self)@ == old(self)@,
    {
        let was_open = addresses_remove(&mut self.addresses, (address.ip, address.port));
        assert(!was_open ==> self@ =~= old(self)@);
        was_open
    }
}

} // verus!
