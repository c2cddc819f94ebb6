use crate::outbound::Outbox;
use dashmap::DashMap;
use tokio_util::sync::CancellationToken;
use vstd::prelude::*;

verus! {

/// `dashmap::DashMap`, taken as it is: the verifier sees nothing inside it.
/// Every function here that changes one takes it by `&mut`, so that nothing
/// else can reach the map during the call.
#[verifier::external_type_specification]
#[verifier::external_body]
#[verifier::reject_recursive_types(K)]
#[verifier::reject_recursive_types(V)]
#[verifier::reject_recursive_types(S)]
pub struct ExDashMap<K, V, S>(DashMap<K, V, S>);

/// `tokio_util::sync::CancellationToken`, taken as it is.
#[verifier::external_type_specification]
#[verifier::external_body]
pub struct ExCancellationToken(CancellationToken);

/// A room's subscribers as a mathematical map: each identity with the number
/// of the connection whose outbound queue is registered for it.
pub type Members = Map<i32, u64>;

/// The subscribers that a room's mapping holds.
pub uninterp spec fn room_members(m: DashMap<i32, Outbox>) -> Map<i32, u64>;

/// One room's hub: the stop signal of whatever works for the room, and the
/// room's live subscribers.
pub struct Hub {
    stop: CancellationToken,
    members: DashMap<i32, Outbox>,
}

/// `list` names every subscriber of `members` exactly once, each with the
/// queue of its own connection.
pub open spec fn lists_members(list: Seq<(i32, Outbox)>, members: Members) -> bool {
    &&& forall|i: int, j: int| 0 <= i < j < list.len() ==> list[i].0 != list[j].0
    &&& forall|i: int|
        0 <= i < list.len() ==> #[trigger] members.contains_pair(
            list[i].0,
            list[i].1.connection_id(),
        )
    &&& forall|k: i32|
        members.contains_key(k) ==> exists|i: int| 0 <= i < list.len() && #[trigger] list[i].0 == k
}

/// `CancellationToken::new`: a token that nobody has cancelled. Nothing is
/// claimed of it.
#[verifier::external_body]
fn stop_signal_new() -> (token: CancellationToken) {
    CancellationToken::new()
}

/// `CancellationToken::cancel`: asks whoever watches the token to stop.
#[verifier::external_body]
fn stop_signal_raise(token: &CancellationToken) {
    token.cancel()
}

/// `CancellationToken::clone`: a second handle on the same signal. The clone
/// is the token itself in every respect that can be told: it is equal to it
/// by the crate's own `==`, and cancelling either cancels both.
#[verifier::external_body]
fn stop_signal_share(token: &CancellationToken) -> (shared: CancellationToken)
    ensures
        shared == *token,
{
    token.clone()
}

/// `DashMap::new`: a fresh map holds no entry.
#[verifier::external_body]
fn members_new() -> (fresh: DashMap<i32, Outbox>)
    ensures
        (room_members(fresh) == Map::<i32, u64>::empty()),
{
    DashMap::new()
}

/// `DashMap::insert`: the key holds the new value afterwards, whatever it
/// held before; every other entry is as it was.
#[verifier::external_body]
fn members_insert(m: &mut DashMap<i32, Outbox>, identity: i32, outbox: Outbox)
    ensures
        room_members(*final(m)) == room_members(*old(m)).insert(identity, outbox.connection_id()),
{
    m.insert(identity, outbox);
}

/// `DashMap::remove`: the key's entry leaves the map; an absent key changes
/// nothing. The result says whether there was an entry.
#[verifier::external_body]
fn members_remove(m: &mut DashMap<i32, Outbox>, identity: i32) -> (was_there: bool)
    ensures
        room_members(*final(m)) == room_members(*old(m)).remove(identity),
        was_there == room_members(*old(m)).contains_key(identity),
{
    m.remove(&identity).is_some()
}

/// `DashMap::contains_key`.
#[verifier::external_body]
fn members_contains(m: &DashMap<i32, Outbox>, identity: i32) -> (found: bool)
    ensures
        found == room_members(*m).contains_key(identity),
{
    m.contains_key(&identity)
}

/// `DashMap::is_empty`: true exactly when the map holds no entry.
#[verifier::external_body]
fn members_is_empty(m: &DashMap<i32, Outbox>) -> (empty: bool)
    ensures
        (empty == (room_members(*m) == Map::<i32, u64>::empty())),
{
    m.is_empty()
}

/// `DashMap::iter`: walks every entry once, in an order that is not
/// specified. Each entry comes out as its key and a second handle on its
/// queue.
#[verifier::external_body]
fn members_list(m: &DashMap<i32, Outbox>) -> (list: Vec<(i32, Outbox)>)
    ensures
        lists_members(list@, room_members(*m)),
{
    m.iter().map(|entry| (*entry.key(), entry.value().another_handle())).collect()
}

impl Hub {
    /// The room's subscribers.
    pub closed spec fn subscribers(&self) -> Members {
        room_members(self.members)
    }

    /// The hub's stop signal: made with the hub, raised when the hub is
    /// closed, and the same for as long as the hub lives.
    pub closed spec fn signal(&self) -> CancellationToken {
        self.stop
    }

    /// A hub with a stop signal of its own and no subscriber yet.
    pub fn open() -> (hub: Hub)
        ensures
            hub.subscribers() == Map::<i32, u64>::empty(),
    {
        Hub { stop: stop_signal_new(), members: members_new() }
    }

    /// Registers `outbox` for `identity`; a queue registered for the identity
    /// before is replaced.
    pub fn add(&mut self, identity: i32, outbox: Outbox)
        ensures
            final(self).signal() == old(self).signal(),
            final(self).subscribers() == old(self).subscribers().insert(
                identity,
                outbox.connection_id(),
            ),
    {
        members_insert(&mut self.members, identity, outbox);
    }

    /// Takes `identity` out of the room. The result says whether it was a
    /// subscriber; where it was not, nothing changes.
    pub fn remove(&mut self, identity: i32) -> (was_there: bool)
        ensures
            final(self).signal() == old(self).signal(),
            final(self).subscribers() == old(self).subscribers().remove(identity),
            was_there == old(self).subscribers().contains_key(identity),
    {
        members_remove(&mut self.members, identity)
    }

    pub fn has(&self, identity: i32) -> (found: bool)
        ensures
            found == self.subscribers().contains_key(identity),
    {
        members_contains(&self.members, identity)
    }

    pub fn is_empty(&self) -> (empty: bool)
        ensures
            empty == (self.subscribers() == Map::<i32, u64>::empty()),
    {
        members_is_empty(&self.members)
    }

    /// Every subscriber once, in no particular order, each with a handle on
    /// its queue.
    pub fn listing(&self) -> (list: Vec<(i32, Outbox)>)
        ensures
            lists_members(list@, self.subscribers()),
    {
        members_list(&self.members)
    }

    /// A second handle on the hub's stop signal, for a task that works for the
    /// room and has to stop with it: the signal that `close` raises.
    pub fn stop_signal(&self) -> (signal: CancellationToken)
        ensures
            signal == self.signal(),
    {
        stop_signal_share(&self.stop)
    }

    /// Ends the hub: raises its stop signal and lets go of its subscribers.
    pub fn close(self) {
        stop_signal_raise(&self.stop);
    }
}

} // verus!
