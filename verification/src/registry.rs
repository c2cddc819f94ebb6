use crate::delivery::lemma_take_to_set_step;
use crate::delivery::sweeps;
use crate::delivery::DeliveryReport;
use crate::hub::lists_members;
use crate::hub::Hub;
use crate::hub::Members;
use crate::outbound::Outbox;
use dashmap::DashMap;
use tokio_util::sync::CancellationToken;
use vstd::prelude::*;

verus! {

/// The rooms that the registry holds, each with its subscribers.
pub uninterp spec fn registry_rooms(r: DashMap<i32, Hub>) -> Map<i32, Map<i32, u64>>;

/// `list` names every key of `rooms` exactly once.
pub open spec fn lists_rooms(list: Seq<i32>, rooms: Map<i32, Members>) -> bool {
    &&& list.no_duplicates()
    &&& forall|i: int| 0 <= i < list.len() ==> rooms.contains_key(#[trigger] list[i])
    &&& forall|k: i32| rooms.contains_key(k) ==> list.contains(k)
}

/// `DashMap::new`, for the registry.
#[verifier::external_body]
fn rooms_new() -> (fresh: DashMap<i32, Hub>)
    ensures
        (registry_rooms(fresh) == Map::<i32, Map<i32, u64>>::empty()),
{
    DashMap::new()
}

/// `DashMap::insert`, for the registry: the room holds the hub afterwards,
/// whatever it held before; every other room is as it was.
#[verifier::external_body]
fn rooms_put(r: &mut DashMap<i32, Hub>, room: i32, hub: Hub)
    ensures
        registry_rooms(*final(r)) == registry_rooms(*old(r)).insert(room, hub.subscribers()),
{
    r.insert(room, hub);
}

/// `DashMap::remove`, for the registry: the room's entry leaves the map and
/// its hub is handed out; an absent room changes nothing and gives `None`.
#[verifier::external_body]
fn rooms_take(r: &mut DashMap<i32, Hub>, room: i32) -> (taken: Option<Hub>)
    ensures
        registry_rooms(*final(r)) == registry_rooms(*old(r)).remove(room),
        taken is Some == registry_rooms(*old(r)).contains_key(room),
        taken matches Some(hub) ==> hub.subscribers() == registry_rooms(*old(r))[room],
{
    r.remove(&room).map(|entry| entry.1)
}

/// `DashMap::contains_key`, for the registry.
#[verifier::external_body]
fn rooms_contains(r: &DashMap<i32, Hub>, room: i32) -> (found: bool)
    ensures
        found == registry_rooms(*r).contains_key(room),
{
    r.contains_key(&room)
}

/// `DashMap::iter`, for the registry: walks every room once, in an order that
/// is not specified, and gives the room numbers.
#[verifier::external_body]
fn rooms_list(r: &DashMap<i32, Hub>) -> (list: Vec<i32>)
    ensures
        lists_rooms(list@, registry_rooms(*r)),
{
    r.iter().map(|entry| *entry.key()).collect()
}

/// The subscribers of `room`; none where the registry has no such room.
pub open spec fn members_of(rooms: Map<i32, Members>, room: i32) -> Members {
    if rooms.contains_key(room) {
        rooms[room]
    } else {
        Map::empty()
    }
}

/// `rooms` after `identity` joined `room` with the queue of `connection`.
pub open spec fn joined(rooms: Map<i32, Members>, room: i32, identity: i32, connection: u64) -> Map<
    i32,
    Members,
> {
    rooms.insert(room, members_of(rooms, room).insert(identity, connection))
}

/// `rooms` with `room` holding `members`, or without the room where `members`
/// is empty.
pub open spec fn keep_if_occupied(rooms: Map<i32, Members>, room: i32, members: Members) -> Map<
    i32,
    Members,
> {
    if members == Map::<i32, u64>::empty() {
        rooms.remove(room)
    } else {
        rooms.insert(room, members)
    }
}

/// `rooms` after `identity` left `room`: the room goes with its last
/// subscriber.
pub open spec fn left(rooms: Map<i32, Members>, room: i32, identity: i32) -> Map<i32, Members> {
    if rooms.contains_key(room) {
        keep_if_occupied(rooms, room, rooms[room].remove(identity))
    } else {
        rooms
    }
}

/// `rooms` after `identity` left each room of `done`.
pub open spec fn without_identity_in(rooms: Map<i32, Members>, identity: i32, done: Set<i32>) -> Map<
    i32,
    Members,
> {
    Map::new(
        |r: i32|
            rooms.contains_key(r) && (done.contains(r) ==> rooms[r].remove(identity) != Map::<
                i32,
                u64,
            >::empty()),
        |r: i32|
            if done.contains(r) {
                rooms[r].remove(identity)
            } else {
                rooms[r]
            },
    )
}

/// `rooms` after `identity` left every room.
pub open spec fn without_identity(rooms: Map<i32, Members>, identity: i32) -> Map<i32, Members> {
    without_identity_in(rooms, identity, Set::full())
}

/// No room is kept without a subscriber.
pub open spec fn all_occupied(rooms: Map<i32, Members>) -> bool {
    forall|r: i32| rooms.contains_key(r) ==> #[trigger] rooms[r] != Map::<i32, u64>::empty()
}

/// Where a room's hub stands in its life.
#[derive(Clone, Copy, Debug, PartialEq, Eq, Structural)]
pub enum HubState {
    /// The registry has no entry for the room.
    Absent,
    /// The room has a hub and at least one subscriber.
    Active,
    /// The last subscriber has left and the hub is on its way out. Only ever
    /// seen inside the operation that took the subscriber out.
    Draining,
}

/// Where the hub of `room` stands.
pub open spec fn hub_state(rooms: Map<i32, Members>, room: i32) -> HubState {
    if !rooms.contains_key(room) {
        HubState::Absent
    } else if rooms[room] == Map::<i32, u64>::empty() {
        HubState::Draining
    } else {
        HubState::Active
    }
}

/// Between two operations no hub is draining: the operation that takes the
/// last subscriber out also takes the hub out.
pub proof fn lemma_never_draining(rooms: Map<i32, Members>, room: i32)
    requires
        all_occupied(rooms),
    ensures
        hub_state(rooms, room) != HubState::Draining,
        hub_state(rooms, room) == HubState::Active <==> rooms.contains_key(room),
{
}

/// Where no room is kept without a subscriber, a room has a hub exactly when
/// it has a subscriber.
pub proof fn lemma_hub_iff_subscribers(rooms: Map<i32, Members>, room: i32)
    requires
        all_occupied(rooms),
    ensures
        rooms.contains_key(room) <==> members_of(rooms, room) != Map::<i32, u64>::empty(),
{
}

/// Taking out a subscriber that is not in the room changes nothing.
pub proof fn lemma_leave_absent(rooms: Map<i32, Members>, room: i32, identity: i32)
    requires
        all_occupied(rooms),
        !members_of(rooms, room).contains_key(identity),
    ensures
        left(rooms, room, identity) == rooms,
{
    if rooms.contains_key(room) {
        assert(rooms[room].remove(identity) =~= rooms[room]);
        assert(rooms.insert(room, rooms[room]) =~= rooms);
    }
}

/// Taking a subscriber out of a room twice is the same as taking it out once.
pub proof fn lemma_leave_twice(rooms: Map<i32, Members>, room: i32, identity: i32)
    ensures
        left(left(rooms, room, identity), room, identity) == left(rooms, room, identity),
{
    if rooms.contains_key(room) {
        let rest = rooms[room].remove(identity);
        if rest == Map::<i32, u64>::empty() {
        } else {
            assert(rest.remove(identity) =~= rest);
            assert(rooms.insert(room, rest).insert(room, rest) =~= rooms.insert(room, rest));
        }
    }
}

/// Ending a room's hub twice is the same as ending it once, and ending the hub
/// of a room that has none changes nothing.
pub proof fn lemma_teardown_twice(rooms: Map<i32, Members>, room: i32)
    ensures
        rooms.remove(room).remove(room) == rooms.remove(room),
        !rooms.contains_key(room) ==> rooms.remove(room) == rooms,
{
    assert(rooms.remove(room).remove(room) =~= rooms.remove(room));
    if !rooms.contains_key(room) {
        assert(rooms.remove(room) =~= rooms);
    }
}

/// Taking an identity out of every room twice is the same as doing it once.
pub proof fn lemma_without_identity_twice(rooms: Map<i32, Members>, identity: i32)
    ensures
        without_identity(without_identity(rooms, identity), identity) == without_identity(
            rooms,
            identity,
        ),
{
    let once = without_identity(rooms, identity);
    let twice = without_identity(once, identity);
    assert forall|r: i32| once.contains_key(r) implies #[trigger] once[r].remove(identity)
        == once[r] by {
        assert(rooms[r].remove(identity).remove(identity) =~= rooms[r].remove(identity));
    }
    assert(twice =~= once);
}

/// The subscription registry: for every room that has a hub, the hub with the
/// room's subscribers.
pub struct Registry {
    hubs: DashMap<i32, Hub>,
}

impl Registry {
    /// The rooms that have a hub, each with its subscribers.
    pub closed spec fn rooms(&self) -> Map<i32, Members> {
        registry_rooms(self.hubs)
    }

    /// A room has a hub exactly while it has a subscriber.
    pub open spec fn wf(&self) -> bool {
        all_occupied(self.rooms())
    }

    pub fn new() -> (registry: Registry)
        ensures
            registry.rooms() == Map::<i32, Members>::empty(),
            registry.wf(),
    {
        Registry { hubs: rooms_new() }
    }

    pub fn has_hub(&self, room: i32) -> (found: bool)
        ensures
            found == self.rooms().contains_key(room),
    {
        rooms_contains(&self.hubs, room)
    }

    /// Where the hub of `room` stands: active or absent.
    pub fn state_of(&self, room: i32) -> (state: HubState)
        requires
            self.wf(),
        ensures
            state == hub_state(self.rooms(), room),
            state != HubState::Draining,
    {
        if rooms_contains(&self.hubs, room) {
            HubState::Active
        } else {
            HubState::Absent
        }
    }

    /// Every room that has a hub, once, in no particular order.
    pub fn room_ids(&self) -> (list: Vec<i32>)
        ensures
            lists_rooms(list@, self.rooms()),
    {
        rooms_list(&self.hubs)
    }

    /// Subscribes `identity` to `room` with `outbox`, making the room's hub
    /// first where there is none. A queue that the identity had in the room
    /// before is replaced.
    pub fn join(&mut self, room: i32, identity: i32, outbox: Outbox)
        requires
            old(self).wf(),
        ensures
            final(self).wf(),
            final(self).rooms() == joined(
                old(self).rooms(),
                room,
                identity,
                outbox.connection_id(),
            ),
    {
        let ghost before = self.rooms();
        let ghost connection = outbox.connection_id();
        let mut hub = match rooms_take(&mut self.hubs, room) {
            Some(hub) => hub,
            None => Hub::open(),
        };
        hub.add(identity, outbox);
        rooms_put(&mut self.hubs, room, hub);
        proof {
            let members = members_of(before, room).insert(identity, connection);
            assert(members.contains_key(identity));
            assert(self.rooms() =~= joined(before, room, identity, connection));
        }
    }

    /// Puts `hub` back under `room` if it still has a subscriber, and ends it
    /// otherwise.
    fn settle_hub(&mut self, room: i32, hub: Hub)
        requires
            old(self).wf(),
            !old(self).rooms().contains_key(room),
        ensures
            final(self).wf(),
            final(self).rooms() == keep_if_occupied(old(self).rooms(), room, hub.subscribers()),
    {
        let ghost before = self.rooms();
        if hub.is_empty() {
            hub.close();
            assert(before.remove(room) =~= before);
        } else {
            rooms_put(&mut self.hubs, room, hub);
        }
    }

    /// Takes `identity` out of `room`, and ends the room's hub where it was the
    /// last subscriber. Nothing changes where the room has no hub or the
    /// identity is not subscribed to it.
    pub fn leave(&mut self, room: i32, identity: i32)
        requires
            old(self).wf(),
        ensures
            final(self).wf(),
            final(self).rooms() == left(old(self).rooms(), room, identity),
    {
        let ghost before = self.rooms();
        match rooms_take(&mut self.hubs, room) {
            Some(hub) => {
                let mut hub = hub;
                hub.remove(identity);
                let ghost rest = hub.subscribers();
                self.settle_hub(room, hub);
                assert(self.rooms() =~= keep_if_occupied(before, room, rest));
            },
            None => {
                assert(self.rooms() =~= before);
            },
        }
    }

    /// Ends the hub of `room`, whoever is subscribed: its stop signal is
    /// raised and the room leaves the registry. The result says whether there
    /// was a hub; where there was none, nothing changes.
    pub fn teardown(&mut self, room: i32) -> (was_there: bool)
        requires
            old(self).wf(),
        ensures
            final(self).wf(),
            final(self).rooms() == old(self).rooms().remove(room),
            was_there == old(self).rooms().contains_key(room),
    {
        match rooms_take(&mut self.hubs, room) {
            Some(hub) => {
                hub.close();
                true
            },
            None => false,
        }
    }
    /// Takes `identity` out of every room, and ends the hub of each room that
    /// it was the last subscriber of. Rooms that it is not subscribed to stay
    /// as they are.
    pub fn forget(&mut self, identity: i32)
        requires
            old(self).wf(),
        ensures
            final(self).wf(),
            final(self).rooms() == without_identity(old(self).rooms(), identity),
    {
        let ghost before = self.rooms();
        let list = self.room_ids();
        let mut i: usize = 0;
        assert(self.rooms() =~= without_identity_in(before, identity, list@.take(0).to_set()));
        while i < list.len()
            invariant
                i <= list.len(),
                self.wf(),
                lists_rooms(list@, before),
                self.rooms() == without_identity_in(
                    before,
                    identity,
                    list@.take(i as int).to_set(),
                ),
            decreases list.len() - i,
        {
            let room = list[i];
            let ghost done = list@.take(i as int).to_set();
            let ghost current = self.rooms();
            proof {
                if done.contains(room) {
                    let j = choose|j: int|
                        0 <= j < list@.take(i as int).len() && list@.take(i as int)[j] == room;
                    assert(list@[j] == list@[i as int]);
                }
                assert(before.contains_key(room));
                assert(current.contains_key(room));
                assert(current[room] == before[room]);
            }
            self.leave(room, identity);
            proof {
                lemma_take_to_set_step(list@, i as int);
                assert(self.rooms() =~= without_identity_in(
                    before,
                    identity,
                    list@.take(i + 1).to_set(),
                ));
            }
            i += 1;
        }
        proof {
            let done = list@.take(list.len() as int).to_set();
            assert(list@.take(list.len() as int) =~= list@);
            assert(without_identity_in(before, identity, done) =~= without_identity(
                before,
                identity,
            ));
        }
    }

    /// The number of the connection whose queue `identity` has in `room`, if it
    /// is subscribed there. The hub is taken out of the registry for the look
    /// and put back, so the registry has to be held exclusively.
    pub fn connection_of(&mut self, room: i32, identity: i32) -> (found: Option<u64>)
        ensures
            final(self).rooms() == old(self).rooms(),
            found == if members_of(old(self).rooms(), room).contains_key(identity) {
                Some(old(self).rooms()[room][identity])
            } else {
                None
            },
    {
        let ghost before = self.rooms();
        match rooms_take(&mut self.hubs, room) {
            Some(hub) => {
                let list = hub.listing();
                let ghost members = hub.subscribers();
                let mut found: Option<u64> = None;
                let mut i: usize = 0;
                while i < list.len()
                    invariant
                        i <= list.len(),
                        lists_members(list@, members),
                        found is None ==> forall|j: int|
                            0 <= j < i ==> (#[trigger] list[j]).0 != identity,
                        found matches Some(c) ==> members.contains_pair(identity, c),
                    decreases list.len() - i,
                {
                    if list[i].0 == identity {
                        found = Some(list[i].1.connection());
                        assert(members.contains_pair(list[i as int].0, list[i as int].1.connection_id()));
                    }
                    i += 1;
                }
                rooms_put(&mut self.hubs, room, hub);
                assert(self.rooms() =~= before);
                found
            },
            None => {
                assert(self.rooms() =~= before);
                None
            },
        }
    }
}

/// `report` is the outcome of publishing to `room` in the registry `before`,
/// with `skip` left out of the fan-out, and `after` is the registry that the
/// publish leaves: the room without the pruned, or no room where nobody is
/// left. A room without a hub has nobody to deliver to and stays without one.
pub open spec fn publishes(
    report: DeliveryReport,
    before: Map<i32, Members>,
    room: i32,
    skip: Option<i32>,
    after: Map<i32, Members>,
) -> bool {
    let kept = members_of(before, room).remove_keys(report.pruned@.to_set());
    &&& sweeps(report, members_of(before, room), skip, kept)
    &&& after == if before.contains_key(room) {
        keep_if_occupied(before, room, kept)
    } else {
        before
    }
}

/// What a publish leaves behind: who took the frame is still subscribed with
/// the same queue, who was pruned is gone, and every other room is as it was.
/// So one subscriber that cannot be reached costs the others nothing.
pub proof fn lemma_publish_outcome(
    report: DeliveryReport,
    before: Map<i32, Members>,
    room: i32,
    skip: Option<i32>,
    after: Map<i32, Members>,
)
    requires
        publishes(report, before, room, skip, after),
    ensures
        forall|id: i32|
            report.delivered@.contains(id) ==> members_of(before, room).contains_key(id)
                && members_of(after, room).contains_pair(id, members_of(before, room)[id]),
        forall|id: i32| report.pruned@.contains(id) ==> !members_of(after, room).contains_key(id),
        forall|other: i32|
            other != room ==> after.contains_key(other) == before.contains_key(other)
                && members_of(after, other) == members_of(before, other),
{
    let members = members_of(before, room);
    let kept = members.remove_keys(report.pruned@.to_set());
    assert forall|id: i32| report.delivered@.contains(id) implies members.contains_key(id)
        && members_of(after, room).contains_pair(id, members[id]) by {
        assert(!report.pruned@.contains(id));
        assert(kept.contains_pair(id, members[id]));
    }
    assert forall|id: i32| report.pruned@.contains(id) implies !members_of(
        after,
        room,
    ).contains_key(id) by {
        assert(report.pruned@.to_set().contains(id));
        assert(!kept.contains_key(id));
    }
}

/// A publish keeps the room exactly when a subscriber is left in it: where
/// every subscriber was pruned the room is gone, and otherwise it is still
/// there. No room is left without a subscriber.
pub proof fn lemma_publish_keeps_occupied(
    report: DeliveryReport,
    before: Map<i32, Members>,
    room: i32,
    skip: Option<i32>,
    after: Map<i32, Members>,
)
    requires
        publishes(report, before, room, skip, after),
        all_occupied(before),
    ensures
        all_occupied(after),
        after.contains_key(room) <==> exists|id: i32|
            #[trigger] members_of(before, room).contains_key(id) && !report.pruned@.contains(id),
{
    let members = members_of(before, room);
    let kept = members.remove_keys(report.pruned@.to_set());
    if exists|id: i32| #[trigger] members.contains_key(id) && !report.pruned@.contains(id) {
        let id = choose|id: i32| #[trigger] members.contains_key(id) && !report.pruned@.contains(id);
        assert(kept.contains_key(id));
        assert(before.contains_key(room));
    }
    if after.contains_key(room) {
        assert(before.contains_key(room));
        if forall|id: i32| !kept.contains_key(id) {
            assert(kept =~= Map::<i32, u64>::empty());
        }
        let id = choose|id: i32| kept.contains_key(id);
        assert(members.contains_key(id) && !report.pruned@.contains(id)) by {
            assert(!report.pruned@.to_set().contains(id));
        }
    }
}

impl Registry {
    /// Fans `frame` out to the subscribers of `room` but `skip`: each queue is
    /// offered the frame once, without waiting. Subscribers whose queue did not
    /// take it are dropped from the room, and the room's hub is ended where
    /// that leaves nobody.
    pub fn publish(&mut self, room: i32, frame: &Vec<u8>, skip: Option<i32>) -> (report:
        DeliveryReport)
        requires
            old(self).wf(),
        ensures
            final(self).wf(),
            publishes(report, old(self).rooms(), room, skip, final(self).rooms()),
    {
        let ghost before = self.rooms();
        match rooms_take(&mut self.hubs, room) {
            Some(hub) => {
                let mut hub = hub;
                let report = hub.fan_out(frame, skip);
                let ghost kept = hub.subscribers();
                self.settle_hub(room, hub);
                assert(self.rooms() =~= keep_if_occupied(before, room, kept));
                report
            },
            None => {
                let report = DeliveryReport { delivered: Vec::new(), pruned: Vec::new() };
                proof {
                    assert(self.rooms() =~= before);
                    assert(report.pruned@.to_set() =~= Set::<i32>::empty());
                    assert(members_of(before, room).remove_keys(Set::<i32>::empty())
                        =~= members_of(before, room));
                }
                report
            },
        }
    }
}

/// Subscribes `user_id` to the room `chatroom_id` with `client_handle`, if the
/// room has a hub. Where it has none the registry stays as it is and the result
/// is false: a hub is made by the first join, not here.
pub fn subscribe_to_channel_handler(
    chatroom_id: i32,
    user_id: i32,
    client_handle: Outbox,
    chatroom_subscriptions: &mut Registry,
) -> (subscribed: bool)
    requires
        old(chatroom_subscriptions).wf(),
    ensures
        final(chatroom_subscriptions).wf(),
        subscribed == old(chatroom_subscriptions).rooms().contains_key(chatroom_id),
        final(chatroom_subscriptions).rooms() == if subscribed {
            joined(
                old(chatroom_subscriptions).rooms(),
                chatroom_id,
                user_id,
                client_handle.connection_id(),
            )
        } else {
            old(chatroom_subscriptions).rooms()
        },
{
    if chatroom_subscriptions.has_hub(chatroom_id) {
        chatroom_subscriptions.join(chatroom_id, user_id, client_handle);
        true
    } else {
        false
    }
}

/// Gives the room `this_chatroom_id` a fresh hub whose only subscriber is
/// `founder` with `client_handle`. A hub that the room had before is ended and
/// its subscribers are gone from the room. The result is a handle on the new
/// hub's stop signal.
pub fn create_chatroom_handler(
    chatroom_subscriptions: &mut Registry,
    this_chatroom_id: i32,
    founder: i32,
    client_handle: Outbox,
) -> (stop: CancellationToken)
    requires
        old(chatroom_subscriptions).wf(),
    ensures
        final(chatroom_subscriptions).wf(),
        final(chatroom_subscriptions).rooms() == old(chatroom_subscriptions).rooms().insert(
            this_chatroom_id,
            Map::<i32, u64>::empty().insert(founder, client_handle.connection_id()),
        ),
{
    let ghost before = chatroom_subscriptions.rooms();
    let ghost connection = client_handle.connection_id();
    chatroom_subscriptions.teardown(this_chatroom_id);
    let mut hub = Hub::open();
    hub.add(founder, client_handle);
    let stop = hub.stop_signal();
    assert(hub.subscribers().contains_key(founder));
    rooms_put(&mut chatroom_subscriptions.hubs, this_chatroom_id, hub);
    assert(chatroom_subscriptions.rooms() =~= before.insert(
        this_chatroom_id,
        Map::<i32, u64>::empty().insert(founder, connection),
    ));
    stop
}

} // verus!
