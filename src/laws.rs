use vstd::prelude::*;

use crate::coordinator::{
    after_acknowledge, after_send, after_timeout, Action, Pending, CHALLENGE_TIMEOUT_SECS,
};
use crate::registry::{ChatId, MessageId, UserId};

verus! {

/// Whether the actions resolve a challenge by admission: the challenge
/// `message_id` is deleted and the user is not expelled.
pub open spec fn admits(acts: Seq<Action>, chat_id: ChatId, user_id: UserId, message_id: MessageId) -> bool {
    acts.contains(Action::DeleteMessage { chat_id, message_id })
        && !acts.contains(Action::Expel { chat_id, user_id })
}

/// Whether the actions expel the user.
pub open spec fn expels(acts: Seq<Action>, chat_id: ChatId, user_id: UserId) -> bool {
    acts.contains(Action::Expel { chat_id, user_id })
}

/// At most one resolution: for an outstanding challenge, whichever of the
/// acknowledgment and the timeout comes first takes the "present" branch
/// (unmute and delete, or expel, unban and delete) and the other one takes
/// the "absent" branch (only the unmute, or nothing). For a challenge that
/// is not outstanding, neither path resolves anything.
pub proof fn lemma_at_most_one_resolution(p: Pending, chat_id: ChatId, user_id: UserId)
    ensures
        p.contains_key((chat_id, user_id)) ==> {
            let m = p[(chat_id, user_id)];
            let (p_ack, acts_ack) = after_acknowledge(p, chat_id, user_id);
            let (p_late_timeout, acts_late_timeout) = after_timeout(p_ack, chat_id, user_id);
            let (p_timeout, acts_timeout) = after_timeout(p, chat_id, user_id);
            let (p_late_ack, acts_late_ack) = after_acknowledge(p_timeout, chat_id, user_id);
            &&& acts_ack == seq![
                Action::Unrestrict { chat_id, user_id },
                Action::DeleteMessage { chat_id, message_id: m },
            ]
            &&& acts_late_timeout == Seq::<Action>::empty()
            &&& acts_timeout == seq![
                Action::Expel { chat_id, user_id },
                Action::Unban { chat_id, user_id },
                Action::DeleteMessage { chat_id, message_id: m },
            ]
            &&& acts_late_ack == seq![Action::Unrestrict { chat_id, user_id }]
            &&& p_late_timeout == p.remove((chat_id, user_id))
            &&& p_late_ack == p.remove((chat_id, user_id))
        },
        !p.contains_key((chat_id, user_id)) ==> {
            &&& after_acknowledge(p, chat_id, user_id) == (
            p,
            seq![Action::Unrestrict { chat_id, user_id }],
            )
            &&& after_timeout(p, chat_id, user_id) == (p, Seq::<Action>::empty())
        },
{
    let k = (chat_id, user_id);
    if p.contains_key(k) {
        assert(!p.remove(k).contains_key(k));
    }
}

/// No double admission or expulsion: whatever the order in which the
/// acknowledgment and the timeout reach an outstanding challenge
/// (`ack_first`), the user is either admitted or expelled, never both, and
/// the challenge message is deleted by exactly one of the two paths.
pub proof fn lemma_no_double_resolution(p: Pending, chat_id: ChatId, user_id: UserId, ack_first: bool)
    requires
        p.contains_key((chat_id, user_id)),
    ensures
        ({
            let m = p[(chat_id, user_id)];
            let (acts_ack, acts_timeout) = if ack_first {
                let (p1, a1) = after_acknowledge(p, chat_id, user_id);
                (a1, after_timeout(p1, chat_id, user_id).1)
            } else {
                let (p1, a1) = after_timeout(p, chat_id, user_id);
                (after_acknowledge(p1, chat_id, user_id).1, a1)
            };
            let deleted_by_ack = acts_ack.contains(Action::DeleteMessage { chat_id, message_id: m });
            let deleted_by_timeout = acts_timeout.contains(
                Action::DeleteMessage { chat_id, message_id: m },
            );
            &&& admits(acts_ack, chat_id, user_id, m) == ack_first
            &&& expels(acts_timeout, chat_id, user_id) == !ack_first
            &&& !expels(acts_ack, chat_id, user_id)
            &&& deleted_by_ack != deleted_by_timeout
        }),
{
    let m = p[(chat_id, user_id)];
    let del = Action::DeleteMessage { chat_id, message_id: m };
    let ex = Action::Expel { chat_id, user_id };
    lemma_at_most_one_resolution(p, chat_id, user_id);
    let a = after_acknowledge(p, chat_id, user_id).1;
    let t = after_timeout(p, chat_id, user_id).1;
    let la = after_acknowledge(after_timeout(p, chat_id, user_id).0, chat_id, user_id).1;
    let lt = after_timeout(after_acknowledge(p, chat_id, user_id).0, chat_id, user_id).1;
    assert(a[1] == del);
    assert(t[0] == ex);
    assert(t[2] == del);
    assert(!a.contains(ex)) by {
        if a.contains(ex) {
            let i = choose|i: int| 0 <= i < a.len() && a[i] == ex;
        }
    }
    assert(!la.contains(ex)) by {
        if la.contains(ex) {
            let i = choose|i: int| 0 <= i < la.len() && la[i] == ex;
        }
    }
    assert(!la.contains(del)) by {
        if la.contains(del) {
            let i = choose|i: int| 0 <= i < la.len() && la[i] == del;
        }
    }
    assert(!lt.contains(del));
    assert(!lt.contains(ex));
}

/// The timeout fires exactly once per join: a posted challenge starts
/// exactly one timer; when it runs out with no acknowledgment, the user is
/// expelled, then unbanned, then the challenge is deleted; a second
/// expiry for the same challenge does nothing.
pub proof fn lemma_timeout_fires_once(p: Pending, chat_id: ChatId, user_id: UserId, message_id: MessageId)
    ensures
        ({
            let (p1, acts_send) = after_send(p, chat_id, user_id, Some(message_id));
            let (p2, acts_timeout) = after_timeout(p1, chat_id, user_id);
            let (p3, acts_again) = after_timeout(p2, chat_id, user_id);
            &&& acts_send == seq![
                Action::ScheduleTimeout { chat_id, user_id, delay_secs: CHALLENGE_TIMEOUT_SECS },
            ]
            &&& acts_timeout == seq![
                Action::Expel { chat_id, user_id },
                Action::Unban { chat_id, user_id },
                Action::DeleteMessage { chat_id, message_id },
            ]
            &&& !p2.contains_key((chat_id, user_id))
            &&& acts_again == Seq::<Action>::empty()
            &&& p3 == p2
        }),
{
    let k = (chat_id, user_id);
    assert(p.insert(k, message_id).contains_key(k));
    assert(!p.insert(k, message_id).remove(k).contains_key(k));
}

/// An acknowledgment before the timeout: the user is unmuted, the entry is
/// removed and the challenge deleted; the timer that runs out later finds
/// no entry and expels no one.
pub proof fn lemma_acknowledge_before_timeout(
    p: Pending,
    chat_id: ChatId,
    user_id: UserId,
    message_id: MessageId,
)
    ensures
        ({
            let (p1, _) = after_send(p, chat_id, user_id, Some(message_id));
            let (p2, acts_ack) = after_acknowledge(p1, chat_id, user_id);
            let (p3, acts_timeout) = after_timeout(p2, chat_id, user_id);
            &&& acts_ack == seq![
                Action::Unrestrict { chat_id, user_id },
                Action::DeleteMessage { chat_id, message_id },
            ]
            &&& !p2.contains_key((chat_id, user_id))
            &&& acts_timeout == Seq::<Action>::empty()
            &&& p3 == p2
        }),
{
    let k = (chat_id, user_id);
    assert(p.insert(k, message_id).contains_key(k));
    assert(!p.insert(k, message_id).remove(k).contains_key(k));
}

/// A failed send leaves nothing behind: a user with no outstanding
/// challenge still has none after the send fails, and no timer is started.
pub proof fn lemma_send_failure_leaves_nothing(p: Pending, chat_id: ChatId, user_id: UserId)
    requires
        !p.contains_key((chat_id, user_id)),
    ensures
        ({
            let (p1, acts) = after_send(p, chat_id, user_id, None);
            &&& !p1.contains_key((chat_id, user_id))
            &&& p1 == p
            &&& acts == Seq::<Action>::empty()
        }),
{
}

} // verus!
