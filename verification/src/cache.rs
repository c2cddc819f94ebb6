use crate::client::WebSocketChatroomMessageClient;
use crate::protocol::BulkChatroomMsgRequest;
use crate::protocol::ChatroomMessageResponse;
use crate::protocol::MessageFetchType;
use crate::protocol::UserLookup;
use std::collections::HashMap;
use std::collections::VecDeque;
use vstd::prelude::*;

verus! {

/// What a look into a cache gives: the entry, or what to ask the server for.
pub enum Cached<T, R> {
    Hit(T),
    Miss(R),
}

/// How many messages one page asks for.
pub const PAGE_SIZE: i32 = 10;

/// The user `user_id` as the cache knows it; where it does not, the user to
/// ask the server for.
pub fn get_or_request_user_information(
    user_info_cache: &HashMap<i32, UserLookup>,
    user_id: i32,
) -> (looked_up: Cached<&UserLookup, i32>)
    ensures
        looked_up == if user_info_cache@.contains_key(user_id) {
            Cached::<&UserLookup, i32>::Hit(&user_info_cache@[user_id])
        } else {
            Cached::Miss(user_id)
        },
{
    broadcast use vstd::std_specs::hash::group_hash_axioms;

    match user_info_cache.get(&user_id) {
        Some(user_information) => Cached::Hit(user_information),
        None => Cached::Miss(user_id),
    }
}

/// The message `msg_id` as the cache knows it; where it does not, the request
/// that fetches it.
pub fn get_or_request_message_from_id(
    last_message_cache: &HashMap<i32, ChatroomMessageResponse>,
    msg_id: i32,
) -> (looked_up: Cached<&ChatroomMessageResponse, MessageFetchType>)
    ensures
        looked_up == if last_message_cache@.contains_key(msg_id) {
            Cached::<&ChatroomMessageResponse, MessageFetchType>::Hit(
                &last_message_cache@[msg_id],
            )
        } else {
            Cached::Miss(MessageFetchType::SingluarFromId(msg_id))
        },
{
    broadcast use vstd::std_specs::hash::group_hash_axioms;

    match last_message_cache.get(&msg_id) {
        Some(last_message) => Cached::Hit(last_message),
        None => Cached::Miss(MessageFetchType::SingluarFromId(msg_id)),
    }
}

/// The messages that a client holds, by chatroom, oldest first.
pub struct MessageCache {
    rooms: HashMap<i32, VecDeque<WebSocketChatroomMessageClient>>,
}

impl MessageCache {
    /// Whether the cache has a list for `chatroom_uid`.
    pub closed spec fn knows(&self, chatroom_uid: i32) -> bool {
        self.rooms@.contains_key(chatroom_uid)
    }

    /// The messages held for `chatroom_uid`, oldest first.
    pub closed spec fn messages(&self, chatroom_uid: i32) -> Seq<WebSocketChatroomMessageClient> {
        self.rooms@[chatroom_uid]@
    }

    pub fn new() -> (cache: MessageCache)
        ensures
            forall|uid: i32| !cache.knows(uid),
    {
        MessageCache { rooms: HashMap::new() }
    }

    /// The messages held for `chatroom_uid`, oldest first, if the cache has a
    /// list for it.
    pub fn list(&self, chatroom_uid: i32) -> (held: Option<&VecDeque<WebSocketChatroomMessageClient>>)
        ensures
            held is Some == self.knows(chatroom_uid),
            held matches Some(list) ==> list@ == self.messages(chatroom_uid),
    {
        broadcast use vstd::std_specs::hash::group_hash_axioms;

        self.rooms.get(&chatroom_uid)
    }

    /// Starts an empty list for `chatroom_uid`; a list that the chatroom had is
    /// dropped.
    pub fn open_room(&mut self, chatroom_uid: i32)
        ensures
            final(self).knows(chatroom_uid),
            final(self).messages(chatroom_uid) == Seq::<WebSocketChatroomMessageClient>::empty(),
            forall|uid: i32|
                uid != chatroom_uid ==> final(self).knows(uid) == old(self).knows(uid)
                    && final(self).messages(uid) == old(self).messages(uid),
    {
        broadcast use vstd::std_specs::hash::group_hash_axioms;

        self.rooms.insert(chatroom_uid, VecDeque::new());
    }

    /// Files a message that came over the socket at the end of its chatroom's
    /// list. A message for a chatroom that the cache has no list for is
    /// dropped; the result says whether it was filed.
    pub fn on_incoming(&mut self, message: WebSocketChatroomMessageClient) -> (filed: bool)
        ensures
            filed == old(self).knows(message.sent_to),
            forall|uid: i32| final(self).knows(uid) == old(self).knows(uid),
            forall|uid: i32|
                final(self).messages(uid) == if uid == message.sent_to && filed {
                    old(self).messages(uid).push(message)
                } else {
                    old(self).messages(uid)
                },
    {
        broadcast use vstd::std_specs::hash::group_hash_axioms;

        let room = message.sent_to;
        match self.rooms.remove(&room) {
            Some(list) => {
                let mut list = list;
                list.push_back(message);
                self.rooms.insert(room, list);
                true
            },
            None => {
                assert(self.rooms@ =~= old(self).rooms@);
                false
            },
        }
    }

    /// Files one fetched page before what the chatroom's list holds: each
    /// message goes to the front in turn, so the last of the page ends up
    /// first. The cache must have a list for the chatroom.
    pub fn on_page(&mut self, chatroom_uid: i32, page: Vec<WebSocketChatroomMessageClient>)
        requires
            old(self).knows(chatroom_uid),
        ensures
            forall|uid: i32| final(self).knows(uid) == old(self).knows(uid),
            final(self).messages(chatroom_uid) == page@.reverse() + old(self).messages(
                chatroom_uid,
            ),
            forall|uid: i32|
                uid != chatroom_uid ==> final(self).messages(uid) == old(self).messages(uid),
    {
        broadcast use vstd::std_specs::hash::group_hash_axioms;

        let ghost held = self.messages(chatroom_uid);
        let ghost all = page@;
        let mut list = self.rooms.remove(&chatroom_uid).unwrap();
        let mut rest = page;
        let mut back: Vec<WebSocketChatroomMessageClient> = Vec::new();
        while rest.len() > 0
            invariant
                rest@.len() <= all.len(),
                rest@ == all.take(rest@.len() as int),
                back@ == all.skip(rest@.len() as int).reverse(),
            decreases rest.len(),
        {
            let message = rest.pop().unwrap();
            back.push(message);
            proof {
                let n = rest@.len() as int;
                assert(rest@ =~= all.take(n));
                assert(message == all[n]);
                assert(back@ =~= all.skip(n).reverse());
            }
        }
        assert(back@ =~= all.reverse()) by {
            assert(all.skip(0) =~= all);
        }
        while back.len() > 0
            invariant
                back@.len() <= all.len(),
                back@ == all.reverse().take(back@.len() as int),
                list@ == all.take(all.len() - back@.len()).reverse() + held,
            decreases back.len(),
        {
            let message = back.pop().unwrap();
            list.push_front(message);
            proof {
                let n = back@.len() as int;
                assert(back@ =~= all.reverse().take(n));
                assert(message == all.reverse()[n]);
                assert(list@ =~= all.take(all.len() - n).reverse() + held);
            }
        }
        assert(all.take(all.len() as int) =~= all);
        self.rooms.insert(chatroom_uid, list);
    }

    /// The request for the page before what the cache holds of `chatroom_uid`:
    /// the messages below the oldest one held, or the latest ones where none
    /// is held. None where the cache has no list for the chatroom.
    pub fn previous_page(&self, chatroom_uid: i32) -> (request: Option<MessageFetchType>)
        ensures
            request == if !self.knows(chatroom_uid) {
                None::<MessageFetchType>
            } else {
                Some(
                    MessageFetchType::BulkFromChatroom(
                        BulkChatroomMsgRequest {
                            chatroom_uid,
                            count: PAGE_SIZE,
                            offset_id: if self.messages(chatroom_uid).len() == 0 {
                                0
                            } else {
                                self.messages(chatroom_uid)[0].message_id
                            },
                        },
                    ),
                )
            },
    {
        broadcast use vstd::std_specs::hash::group_hash_axioms;

        match self.rooms.get(&chatroom_uid) {
            Some(list) => {
                let offset_id = if list.len() == 0 {
                    0
                } else {
                    list[0].message_id
                };
                Some(
                    MessageFetchType::BulkFromChatroom(
                        BulkChatroomMsgRequest { chatroom_uid, count: PAGE_SIZE, offset_id },
                    ),
                )
            },
            None => None,
        }
    }
}

} // verus!
