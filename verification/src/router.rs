use vstd::prelude::*;

verus! {

/// One inbound chat event, as plain values: who wrote it, where it
/// happened, what it says, whom it mentions and whose message it replies
/// to.
#[derive(Clone, Debug, PartialEq)]
pub struct ChatEvent {
    pub author_id: u64,
    pub channel_id: u64,
    pub message_id: u64,
    pub author_name: String,
    pub channel_name: String,
    pub content: String,
    pub mentions: Vec<u64>,
    pub replied_author: Option<u64>,
}

/// The bridge answers an event exactly when someone else wrote it and it
/// either mentions the bridge's own user or replies to one of its messages.
pub open spec fn spec_should_respond(e: ChatEvent, self_id: u64) -> bool {
    e.author_id != self_id && (e.mentions@.contains(self_id) || e.replied_author == Some(self_id))
}

/// Decide whether an inbound chat event is answered at all.
#[verifier::loop_isolation(false)]
pub fn should_respond(e: &ChatEvent, self_id: u64) -> (r: bool)
    ensures
        r == spec_should_respond(*e, self_id),
{
    if e.author_id == self_id {
        return false;
    }
    match e.replied_author {
        Some(author) => {
            if author == self_id {
                return true;
            }
        },
        None => {},
    }
    let mut i: usize = 0;
    while i < e.mentions.len()
        invariant
            i <= e.mentions@.len(),
            forall|j: int| 0 <= j < i ==> e.mentions@[j] != self_id,
        decreases e.mentions@.len() - i,
    {
        if e.mentions[i] == self_id {
            proof {
                assert(e.mentions@[i as int] == self_id);
            }
            return true;
        }
        i += 1;
    }
    proof {
        assert(!e.mentions@.contains(self_id));
    }
    false
}

} // verus!
