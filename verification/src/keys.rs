use rand::distr::Uniform;
use rand::Rng;
use vstd::prelude::*;

verus! {

/// How many characters the public id of a chatroom has.
pub const CHATROOM_ID_LENGTH: usize = 10;

/// The first character that may stand in the public id of a chatroom.
pub const ID_CHAR_FIRST: char = ' ';

/// The first character after those that may stand in the public id of a
/// chatroom.
pub const ID_CHAR_END: char = '~';

/// Whether `c` may stand in the public id of a chatroom: a printable ASCII
/// character from the space up to, and without, the tilde.
pub open spec fn is_id_char(c: char) -> bool {
    ID_CHAR_FIRST as u32 <= c as u32 && (c as u32) < ID_CHAR_END as u32
}

/// `Rng::fill` on the thread's generator: 32 bytes of its output. Nothing is
/// claimed of the bytes.
#[verifier::external_body]
pub fn generate_random_secure_key() -> (key: [u8; 32]) {
    let mut custom_identifier = [0_u8; 32];
    rand::rng().fill(&mut custom_identifier);
    custom_identifier
}

/// `Rng::sample_iter` on the thread's generator with `Uniform::new` over the
/// characters from `low` up to, and without, `high`: the first `count`
/// samples, as one text. Which characters come is left open; each lies in
/// that range. A range that holds no character cannot be sampled.
#[verifier::external_body]
fn sample_chars(low: char, high: char, count: usize) -> (text: String)
    requires
        (low as u32) < (high as u32),
    ensures
        text@.len() == count,
        forall|i: int|
            0 <= i < text@.len() ==> (low as u32) <= (#[trigger] text@[i]) as u32 && (text@[i]
                as u32) < (high as u32),
{
    rand::rng().sample_iter(&Uniform::new(low, high).unwrap()).take(count).collect()
}

/// A fresh public id for a chatroom: as many characters as an id has, each
/// one that may stand in an id, picked at random.
pub(crate) fn sample_chatroom_id() -> (id: String)
    ensures
        id@.len() == CHATROOM_ID_LENGTH,
        forall|i: int| 0 <= i < id@.len() ==> is_id_char(#[trigger] id@[i]),
{
    sample_chars(ID_CHAR_FIRST, ID_CHAR_END, CHATROOM_ID_LENGTH)
}

} // verus!
