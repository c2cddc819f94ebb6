use crate::outbound::Enqueue;
use crate::hub::lists_members;
use crate::hub::Hub;
use crate::hub::Members;
use vstd::prelude::*;

verus! {

/// One attempt of a fan-out: the subscriber, and what its queue answered.
pub type Attempt = (i32, Enqueue);

/// What one fan-out did: who got the frame, and who was dropped from the room
/// because its queue would not take it.
pub struct DeliveryReport {
    pub delivered: Vec<i32>,
    pub pruned: Vec<i32>,
}

/// The subscribers of `attempts`, in the order of the attempts, whose queue
/// took the frame (`accepted`) or did not (`!accepted`).
pub open spec fn subscribers_with(attempts: Seq<Attempt>, accepted: bool) -> Seq<i32>
    decreases attempts.len(),
{
    if attempts.len() == 0 {
        Seq::empty()
    } else {
        let before = subscribers_with(attempts.drop_last(), accepted);
        if (attempts.last().1 is Accepted) == accepted {
            before.push(attempts.last().0)
        } else {
            before
        }
    }
}

/// No subscriber was tried twice.
pub open spec fn tried_once(attempts: Seq<Attempt>) -> bool {
    forall|i: int, j: int| 0 <= i < j < attempts.len() ==> attempts[i].0 != attempts[j].0
}

/// Whether `identity` is among the subscribers that were tried.
pub open spec fn was_tried(attempts: Seq<Attempt>, identity: i32) -> bool {
    exists|i: int| 0 <= i < attempts.len() && (#[trigger] attempts[i]).0 == identity
}

/// A subscriber is listed by `subscribers_with` exactly when one of its
/// attempts ended that way.
pub proof fn lemma_subscribers_with_contains(attempts: Seq<Attempt>, accepted: bool, identity: i32)
    ensures
        subscribers_with(attempts, accepted).contains(identity) <==> exists|i: int|
            0 <= i < attempts.len() && (#[trigger] attempts[i]).0 == identity && (attempts[i].1
                is Accepted) == accepted,
    decreases attempts.len(),
{
    let listed = subscribers_with(attempts, accepted);
    if attempts.len() == 0 {
        assert(!listed.contains(identity));
    } else {
        let front = attempts.drop_last();
        let before = subscribers_with(front, accepted);
        lemma_subscribers_with_contains(front, accepted, identity);
        let hit = (attempts.last().1 is Accepted) == accepted;
        if listed.contains(identity) {
            let k = choose|k: int| 0 <= k < listed.len() && listed[k] == identity;
            if hit && k == before.len() {
                assert(attempts[attempts.len() - 1].0 == identity);
            } else {
                assert(before[k] == identity);
                assert(before.contains(identity));
                let i = choose|i: int|
                    0 <= i < front.len() && (#[trigger] front[i]).0 == identity && (front[i].1
                        is Accepted) == accepted;
                assert(attempts[i] == front[i]);
            }
        }
        if exists|i: int|
            0 <= i < attempts.len() && (#[trigger] attempts[i]).0 == identity && (attempts[i].1
                is Accepted) == accepted {
            let i = choose|i: int|
                0 <= i < attempts.len() && (#[trigger] attempts[i]).0 == identity && (attempts[i].1
                    is Accepted) == accepted;
            if i == attempts.len() - 1 {
                assert(listed[before.len() as int] == identity);
            } else {
                assert(front[i] == attempts[i]);
                assert(before.contains(identity));
                let k = choose|k: int| 0 <= k < before.len() && before[k] == identity;
                assert(listed[k] == identity);
            }
        }
    }
}

/// Where no subscriber was tried twice, none is listed twice.
pub proof fn lemma_subscribers_with_distinct(attempts: Seq<Attempt>, accepted: bool)
    requires
        tried_once(attempts),
    ensures
        subscribers_with(attempts, accepted).no_duplicates(),
    decreases attempts.len(),
{
    if attempts.len() > 0 {
        let front = attempts.drop_last();
        let before = subscribers_with(front, accepted);
        lemma_subscribers_with_distinct(front, accepted);
        if (attempts.last().1 is Accepted) == accepted {
            let id = attempts.last().0;
            lemma_subscribers_with_contains(front, accepted, id);
            assert(!before.contains(id));
            let listed = before.push(id);
            assert forall|a: int, b: int| 0 <= a < listed.len() && 0 <= b < listed.len() && a
                != b implies listed[a] != listed[b] by {
                if a < before.len() && b < before.len() {
                } else if a < before.len() {
                    assert(before.contains(before[a]));
                } else if b < before.len() {
                    assert(before.contains(before[b]));
                }
            }
        }
    }
}

/// Sorts the attempts of one fan-out into those that reached their subscriber
/// and those that did not; each list keeps the order of the attempts.
pub fn settle(attempts: &Vec<Attempt>) -> (report: DeliveryReport)
    ensures
        report.delivered@ == subscribers_with(attempts@, true),
        report.pruned@ == subscribers_with(attempts@, false),
{
    let mut delivered: Vec<i32> = Vec::new();
    let mut pruned: Vec<i32> = Vec::new();
    let mut i: usize = 0;
    assert(attempts@.take(0) =~= Seq::<Attempt>::empty());
    while i < attempts.len()
        invariant
            i <= attempts.len(),
            delivered@ == subscribers_with(attempts@.take(i as int), true),
            pruned@ == subscribers_with(attempts@.take(i as int), false),
        decreases attempts.len() - i,
    {
        let attempt = attempts[i];
        proof {
            let next = attempts@.take(i + 1);
            assert(next.drop_last() =~= attempts@.take(i as int));
            assert(next.last() == attempt);
        }
        match attempt.1 {
            Enqueue::Accepted => delivered.push(attempt.0),
            _ => pruned.push(attempt.0),
        }
        i += 1;
    }
    assert(attempts@.take(attempts.len() as int) =~= attempts@);
    DeliveryReport { delivered, pruned }
}

/// `report` is the outcome of one fan-out over the subscribers `before`, with
/// `skip` left out of it: everyone else was tried once and is either among the
/// delivered or among the pruned, and `after` is `before` without the pruned.
pub open spec fn sweeps(
    report: DeliveryReport,
    before: Members,
    skip: Option<i32>,
    after: Members,
) -> bool {
    &&& report.delivered@.no_duplicates()
    &&& report.pruned@.no_duplicates()
    &&& forall|id: i32| !(report.delivered@.contains(id) && report.pruned@.contains(id))
    &&& forall|id: i32|
        (report.delivered@.contains(id) || report.pruned@.contains(id)) <==> (before.contains_key(
            id,
        ) && skip != Some(id))
    &&& after == before.remove_keys(report.pruned@.to_set())
}

pub(crate) proof fn lemma_take_to_set_step(list: Seq<i32>, k: int)
    requires
        0 <= k < list.len(),
    ensures
        list.take(k + 1).to_set() == list.take(k).to_set().insert(list[k]),
{
    let shorter = list.take(k);
    let longer = list.take(k + 1);
    assert forall|a: i32| longer.to_set().contains(a) <==> shorter.to_set().insert(
        list[k],
    ).contains(a) by {
        if longer.contains(a) {
            let i = choose|i: int| 0 <= i < longer.len() && longer[i] == a;
            if i < k {
                assert(shorter[i] == a);
            }
        }
        if shorter.contains(a) {
            let i = choose|i: int| 0 <= i < shorter.len() && shorter[i] == a;
            assert(longer[i] == a);
        }
        if a == list[k] {
            assert(longer[k] == a);
        }
    }
    assert(longer.to_set() =~= shorter.to_set().insert(list[k]));
}

impl Hub {
    /// Offers `frame` once to the queue of every subscriber but `skip`, without
    /// waiting on any of them. A subscriber whose queue does not take the frame
    /// is dropped from the room; the others stay, and none is tried again.
    pub fn fan_out(&mut self, frame: &Vec<u8>, skip: Option<i32>) -> (report: DeliveryReport)
        ensures
            final(self).signal() == old(self).signal(),
            sweeps(report, old(self).subscribers(), skip, final(self).subscribers()),
    {
        let ghost before = self.subscribers();
        let list = self.listing();
        let mut attempts: Vec<Attempt> = Vec::new();
        let mut i: usize = 0;
        while i < list.len()
            invariant
                i <= list.len(),
                lists_members(list@, before),
                tried_once(attempts@),
                forall|k: int|
                    0 <= k < attempts.len() ==> skip != Some((#[trigger] attempts[k]).0)
                        && exists|j: int| 0 <= j < i && (#[trigger] list[j]).0 == attempts[k].0,
                forall|j: int|
                    0 <= j < i && skip != Some((#[trigger] list[j]).0) ==> was_tried(
                        attempts@,
                        list[j].0,
                    ),
            decreases list.len() - i,
        {
            let id = list[i].0;
            let skipped = match skip {
                Some(s) => s == id,
                None => false,
            };
            if !skipped {
                let outcome = list[i].1.try_enqueue(frame);
                let ghost earlier = attempts@;
                attempts.push((id, outcome));
                proof {
                    assert forall|a: int, b: int| 0 <= a < b < attempts.len() implies attempts[a].0
                        != attempts[b].0 by {
                        if b == earlier.len() {
                            assert(attempts[a] == earlier[a]);
                            let j = choose|j: int| 0 <= j < i && (#[trigger] list[j]).0 == earlier[a].0;
                            assert(list[j].0 != list[i as int].0);
                        } else {
                            assert(attempts[a] == earlier[a]);
                            assert(attempts[b] == earlier[b]);
                        }
                    }
                    assert forall|k: int| 0 <= k < attempts.len() implies skip != Some(
                        (#[trigger] attempts[k]).0,
                    ) && exists|j: int| 0 <= j < i + 1 && (#[trigger] list[j]).0 == attempts[k].0 by {
                        if k == earlier.len() {
                            assert(list[i as int].0 == attempts[k].0);
                        } else {
                            assert(attempts[k] == earlier[k]);
                            let j = choose|j: int| 0 <= j < i && (#[trigger] list[j]).0 == earlier[k].0;
                            assert(list[j].0 == attempts[k].0);
                        }
                    }
                    assert forall|j: int| 0 <= j < i + 1 && skip != Some(
                        (#[trigger] list[j]).0,
                    ) implies was_tried(attempts@, list[j].0) by {
                        if j == i {
                            assert(attempts[earlier.len() as int].0 == list[j].0);
                        } else {
                            let k = choose|k: int|
                                0 <= k < earlier.len() && (#[trigger] earlier[k]).0 == list[j].0;
                            assert(attempts[k] == earlier[k]);
                        }
                    }
                }
            }
            i += 1;
        }
        let report = settle(&attempts);
        proof {
            lemma_subscribers_with_distinct(attempts@, true);
            lemma_subscribers_with_distinct(attempts@, false);
            assert forall|id: i32|
                !(report.delivered@.contains(id) && report.pruned@.contains(id)) by {
                lemma_subscribers_with_contains(attempts@, true, id);
                lemma_subscribers_with_contains(attempts@, false, id);
            }
            assert forall|id: i32|
                (report.delivered@.contains(id) || report.pruned@.contains(id)) <==> (
                before.contains_key(id) && skip != Some(id)) by {
                lemma_subscribers_with_contains(attempts@, true, id);
                lemma_subscribers_with_contains(attempts@, false, id);
                if report.delivered@.contains(id) || report.pruned@.contains(id) {
                    let k = choose|k: int| 0 <= k < attempts.len() && (#[trigger] attempts[k]).0 == id;
                    let j = choose|j: int|
                        0 <= j < list.len() && (#[trigger] list[j]).0 == attempts[k].0;
                    assert(before.contains_pair(list[j].0, list[j].1.connection_id()));
                }
                if before.contains_key(id) && skip != Some(id) {
                    let j = choose|j: int| 0 <= j < list.len() && (#[trigger] list[j]).0 == id;
                    assert(was_tried(attempts@, list[j].0));
                    let k = choose|k: int| 0 <= k < attempts.len() && (#[trigger] attempts[k]).0 == id;
                    assert(attempts[k].0 == id);
                }
            }
            assert(report.pruned@.take(0).to_set() =~= Set::<i32>::empty());
            assert(before.remove_keys(Set::<i32>::empty()) =~= before);
        }
        let mut k: usize = 0;
        while k < report.pruned.len()
            invariant
                k <= report.pruned.len(),
                self.signal() == old(self).signal(),
                self.subscribers() == before.remove_keys(report.pruned@.take(k as int).to_set()),
            decreases report.pruned.len() - k,
        {
            let gone = report.pruned[k];
            self.remove(gone);
            proof {
                lemma_take_to_set_step(report.pruned@, k as int);
                let shorter = report.pruned@.take(k as int).to_set();
                assert(before.remove_keys(shorter).remove(gone) =~= before.remove_keys(
                    shorter.insert(gone),
                ));
            }
            k += 1;
        }
        assert(report.pruned@.take(report.pruned.len() as int) =~= report.pruned@);
        report
    }
}

} // verus!
