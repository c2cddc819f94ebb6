use crate::hub::Members;
use vstd::prelude::*;

verus! {

/// One published frame: the room it was published to, and its bytes.
pub type Publication = (i32, Seq<u8>);

/// A subscriber: an identity, and the number of the connection whose queue
/// stands for it.
pub type Subscriber = (i32, u64);

/// `at` places `a` in `b`: it gives every element of `a` a position in `b`
/// that holds the same value, and a later element a later position.
pub open spec fn embeds<T>(a: Seq<T>, b: Seq<T>, at: Seq<int>) -> bool {
    &&& at.len() == a.len()
    &&& forall|i: int| 0 <= i < a.len() ==> 0 <= #[trigger] at[i] < b.len() && b[at[i]] == a[i]
    &&& forall|i: int, j: int| 0 <= i < j < a.len() ==> #[trigger] at[i] < #[trigger] at[j]
}

/// `a` is what is left of `b` when some of its elements are taken out: the
/// elements of `a` stand in `b` in the same order.
pub open spec fn is_subsequence<T>(a: Seq<T>, b: Seq<T>) -> bool {
    exists|at: Seq<int>| embeds(a, b, at)
}

/// The empty sequence is a subsequence of every sequence.
pub proof fn lemma_empty_is_subsequence<T>(b: Seq<T>)
    ensures
        is_subsequence(Seq::<T>::empty(), b),
{
    assert(embeds(Seq::<T>::empty(), b, Seq::<int>::empty()));
}

/// A subsequence stays one when the longer sequence grows at its end.
pub proof fn lemma_subsequence_skips<T>(a: Seq<T>, b: Seq<T>, x: T)
    requires
        is_subsequence(a, b),
    ensures
        is_subsequence(a, b.push(x)),
{
    let at = choose|at: Seq<int>| embeds(a, b, at);
    assert(embeds(a, b.push(x), at));
}

/// A subsequence stays one when both sequences grow by the same element.
pub proof fn lemma_subsequence_takes<T>(a: Seq<T>, b: Seq<T>, x: T)
    requires
        is_subsequence(a, b),
    ensures
        is_subsequence(a.push(x), b.push(x)),
{
    let at = choose|at: Seq<int>| embeds(a, b, at);
    let longer = at.push(b.len() as int);
    assert(embeds(a.push(x), b.push(x), longer));
}

/// Striking the same elements out of both sequences keeps a subsequence one.
pub proof fn lemma_subsequence_filter<T>(a: Seq<T>, b: Seq<T>, keep: spec_fn(T) -> bool)
    requires
        is_subsequence(a, b),
    ensures
        is_subsequence(a.filter(keep), b.filter(keep)),
    decreases b.len(),
{
    reveal(Seq::filter);
    let at = choose|at: Seq<int>| embeds(a, b, at);
    if a.len() == 0 {
        assert(a.filter(keep) =~= Seq::<T>::empty());
        lemma_empty_is_subsequence(b.filter(keep));
    } else {
        let n = a.len() - 1;
        assert(0 <= at[n] < b.len());
        let shorter = b.drop_last();
        let x = b.last();
        assert(b =~= shorter.push(x));
        shorter.lemma_filter_push(x, keep);
        if at[n] == b.len() - 1 {
            let front = a.drop_last();
            assert(a =~= front.push(x));
            front.lemma_filter_push(x, keep);
            assert(embeds(front, shorter, at.drop_last())) by {
                assert forall|i: int| 0 <= i < front.len() implies 0 <= #[trigger] at.drop_last()[i]
                    < shorter.len() && shorter[at.drop_last()[i]] == front[i] by {
                    assert(at[i] < at[n]);
                }
            }
            lemma_subsequence_filter(front, shorter, keep);
            if keep(x) {
                lemma_subsequence_takes(front.filter(keep), shorter.filter(keep), x);
            }
        } else {
            assert(embeds(a, shorter, at)) by {
                assert forall|i: int| 0 <= i < a.len() implies 0 <= #[trigger] at[i]
                    < shorter.len() && shorter[at[i]] == a[i] by {
                    if i < n {
                        assert(at[i] < at[n]);
                    }
                }
            }
            lemma_subsequence_filter(a, shorter, keep);
            if keep(x) {
                lemma_subsequence_skips(a.filter(keep), shorter.filter(keep), x);
            }
        }
    }
}

/// Whether a frame was published to `room`.
pub open spec fn of_room(room: i32) -> spec_fn(Publication) -> bool {
    |frame: Publication| frame.0 == room
}

/// The frames of `frames` that were published to `room`, in their order.
pub open spec fn in_room(frames: Seq<Publication>, room: i32) -> Seq<Publication> {
    frames.filter(of_room(room))
}

/// What the relay has done with frames so far.
pub struct History {
    /// Every frame that was fanned out, in the order of the publishing.
    pub published: Seq<Publication>,
    /// For each subscriber, the frames that its queue has taken, in the order
    /// in which it took them.
    pub accepted: Map<Subscriber, Seq<Publication>>,
}

impl History {
    /// The history of a relay that has published nothing.
    pub open spec fn empty() -> History {
        History { published: Seq::empty(), accepted: Map::empty() }
    }

    /// The frames that the queue of `subscriber` has taken, in the order in
    /// which it took them.
    pub open spec fn taken_by(self, subscriber: Subscriber) -> Seq<Publication> {
        if self.accepted.contains_key(subscriber) {
            self.accepted[subscriber]
        } else {
            Seq::empty()
        }
    }

    /// Every queue has taken its frames in the order of their publishing.
    pub open spec fn in_publish_order(self) -> bool {
        forall|subscriber: Subscriber|
            is_subsequence(#[trigger] self.taken_by(subscriber), self.published)
    }

    /// The history after `frame` was published to `room`, whose subscribers
    /// were `members`, and the queues of `delivered` took it.
    pub open spec fn after_publish(
        self,
        room: i32,
        frame: Seq<u8>,
        members: Members,
        delivered: Seq<i32>,
    ) -> History {
        History {
            published: self.published.push((room, frame)),
            accepted: Map::new(
                |s: Subscriber|
                    self.accepted.contains_key(s) || (delivered.contains(s.0)
                        && members.contains_pair(s.0, s.1)),
                |s: Subscriber|
                    if delivered.contains(s.0) && members.contains_pair(s.0, s.1) {
                        self.taken_by(s).push((room, frame))
                    } else {
                        self.accepted[s]
                    },
            ),
        }
    }
}

/// A publish puts the frame once at the end of what the queue of each
/// subscriber that took it has taken, and leaves what every other queue has
/// taken as it was.
pub proof fn lemma_publish_takes_once(
    history: History,
    room: i32,
    frame: Seq<u8>,
    members: Members,
    delivered: Seq<i32>,
    subscriber: Subscriber,
)
    ensures
        history.after_publish(room, frame, members, delivered).published
            == history.published.push((room, frame)),
        history.after_publish(room, frame, members, delivered).taken_by(subscriber)
            == if delivered.contains(subscriber.0) && members.contains_pair(
            subscriber.0,
            subscriber.1,
        ) {
            history.taken_by(subscriber).push((room, frame))
        } else {
            history.taken_by(subscriber)
        },
{
}

/// Two publishes that the queue of a subscriber both took stand at the end of
/// what it has taken, the first before the second, each once.
pub proof fn lemma_two_publishes_in_order(
    history: History,
    first: Publication,
    second: Publication,
    members: Members,
    delivered_first: Seq<i32>,
    delivered_second: Seq<i32>,
    subscriber: Subscriber,
)
    requires
        members.contains_pair(subscriber.0, subscriber.1),
        delivered_first.contains(subscriber.0),
        delivered_second.contains(subscriber.0),
    ensures
        history.after_publish(first.0, first.1, members, delivered_first).after_publish(
            second.0,
            second.1,
            members,
            delivered_second,
        ).taken_by(subscriber) == history.taken_by(subscriber).push(first).push(second),
{
    let once = history.after_publish(first.0, first.1, members, delivered_first);
    lemma_publish_takes_once(history, first.0, first.1, members, delivered_first, subscriber);
    lemma_publish_takes_once(once, second.0, second.1, members, delivered_second, subscriber);
}

/// A history of nothing is in order.
pub proof fn lemma_empty_history_in_order()
    ensures
        History::empty().in_publish_order(),
{
    assert forall|subscriber: Subscriber|
        is_subsequence(
            #[trigger] History::empty().taken_by(subscriber),
            History::empty().published,
        ) by {
        lemma_empty_is_subsequence(History::empty().published);
    }
}

/// One more publish keeps every queue in the order of the publishing.
pub proof fn lemma_publish_keeps_order(
    history: History,
    room: i32,
    frame: Seq<u8>,
    members: Members,
    delivered: Seq<i32>,
)
    requires
        history.in_publish_order(),
    ensures
        history.after_publish(room, frame, members, delivered).in_publish_order(),
{
    let after = history.after_publish(room, frame, members, delivered);
    assert forall|subscriber: Subscriber|
        is_subsequence(#[trigger] after.taken_by(subscriber), after.published) by {
        let before = history.taken_by(subscriber);
        assert(is_subsequence(before, history.published));
        if delivered.contains(subscriber.0) && members.contains_pair(subscriber.0, subscriber.1) {
            lemma_subsequence_takes(before, history.published, (room, frame));
        } else {
            lemma_subsequence_skips(before, history.published, (room, frame));
            assert(after.taken_by(subscriber) == before);
        }
    }
}

} // verus!
