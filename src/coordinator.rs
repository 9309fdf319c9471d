use vstd::prelude::*;

use crate::registry::{ChatId, MessageId, Registry, UserId};

verus! {

/// How long a new member has to acknowledge the challenge, in seconds.
pub const CHALLENGE_TIMEOUT_SECS: u64 = 30;

/// The outstanding challenges, as a map from (channel, user) to the
/// challenge message.
pub type Pending = Map<(ChatId, UserId), MessageId>;

/// A side effect that the surrounding system performs on the platform.
/// Each one is best effort: its failure changes no decision of the coordinator,
/// except for `SendChallenge`, whose outcome comes back as an event.
#[derive(Clone, Copy, Debug, PartialEq, Eq, Structural)]
pub enum Action {
    /// Take away the user's right to post in the channel.
    Restrict { chat_id: ChatId, user_id: UserId },
    /// Give the user back the right to post in the channel.
    Unrestrict { chat_id: ChatId, user_id: UserId },
    /// Post the challenge, with its acknowledgment control, as a reply to
    /// the join message; report the outcome as `ChallengeSent` or
    /// `ChallengeFailed`.
    SendChallenge { chat_id: ChatId, user_id: UserId, reply_to: MessageId },
    /// Report `TimeoutElapsed` for the user once `delay_secs` have passed,
    /// without holding up other events.
    ScheduleTimeout { chat_id: ChatId, user_id: UserId, delay_secs: u64 },
    /// Remove the user from the channel.
    Expel { chat_id: ChatId, user_id: UserId },
    /// Lift the ban that the removal left, so the user may join again.
    Unban { chat_id: ChatId, user_id: UserId },
    /// Delete a message of the channel.
    DeleteMessage { chat_id: ChatId, message_id: MessageId },
}

/// What the coordinator is told.
#[derive(Clone, Copy, Debug, PartialEq, Eq, Structural)]
pub enum Event {
    /// A user joined the channel; `join_message_id` is the join notice.
    MemberJoined { chat_id: ChatId, user_id: UserId, join_message_id: MessageId },
    /// The challenge for the user was posted as `message_id`.
    ChallengeSent { chat_id: ChatId, user_id: UserId, message_id: MessageId },
    /// Posting the challenge for the user failed.
    ChallengeFailed { chat_id: ChatId, user_id: UserId },
    /// The user activated the acknowledgment control.
    ControlActivated { chat_id: ChatId, user_id: UserId },
    /// The waiting time of the user's challenge is over.
    TimeoutElapsed { chat_id: ChatId, user_id: UserId },
}

/// What a join asks for: mute the user, then post the challenge.
pub open spec fn welcome_actions(chat_id: ChatId, user_id: UserId, join_message_id: MessageId) -> Seq<
    Action,
> {
    seq![
        Action::Restrict { chat_id, user_id },
        Action::SendChallenge { chat_id, user_id, reply_to: join_message_id },
    ]
}

/// The outcome of posting a challenge: where it was posted, the challenge
/// becomes outstanding and its timer is started; where it failed, nothing.
pub open spec fn after_send(p: Pending, chat_id: ChatId, user_id: UserId, sent: Option<MessageId>) -> (
    Pending,
    Seq<Action>,
) {
    match sent {
        Some(m) => (
            p.insert((chat_id, user_id), m),
            seq![Action::ScheduleTimeout { chat_id, user_id, delay_secs: CHALLENGE_TIMEOUT_SECS }],
        ),
        None => (p, Seq::empty()),
    }
}

/// The end of the waiting time: a challenge still outstanding is resolved
/// by expelling the user (removal, then unban) and deleting the challenge;
/// one already resolved asks for nothing.
pub open spec fn after_timeout(p: Pending, chat_id: ChatId, user_id: UserId) -> (Pending, Seq<Action>) {
    if p.contains_key((chat_id, user_id)) {
        (
            p.remove((chat_id, user_id)),
            seq![
                Action::Expel { chat_id, user_id },
                Action::Unban { chat_id, user_id },
                Action::DeleteMessage { chat_id, message_id: p[(chat_id, user_id)] },
            ],
        )
    } else {
        (p, Seq::empty())
    }
}

/// An acknowledgment: the user is unmuted in any case; a challenge still
/// outstanding is resolved by deleting it.
pub open spec fn after_acknowledge(p: Pending, chat_id: ChatId, user_id: UserId) -> (
    Pending,
    Seq<Action>,
) {
    if p.contains_key((chat_id, user_id)) {
        (
            p.remove((chat_id, user_id)),
            seq![
                Action::Unrestrict { chat_id, user_id },
                Action::DeleteMessage { chat_id, message_id: p[(chat_id, user_id)] },
            ],
        )
    } else {
        (p, seq![Action::Unrestrict { chat_id, user_id }])
    }
}

/// The coordinator's response to one event.
pub open spec fn step(p: Pending, e: Event) -> (Pending, Seq<Action>) {
    match e {
        Event::MemberJoined { chat_id, user_id, join_message_id } => (
            p,
            welcome_actions(chat_id, user_id, join_message_id),
        ),
        Event::ChallengeSent { chat_id, user_id, message_id } => after_send(
            p,
            chat_id,
            user_id,
            Some(message_id),
        ),
        Event::ChallengeFailed { chat_id, user_id } => after_send(p, chat_id, user_id, None),
        Event::ControlActivated { chat_id, user_id } => after_acknowledge(p, chat_id, user_id),
        Event::TimeoutElapsed { chat_id, user_id } => after_timeout(p, chat_id, user_id),
    }
}

/// The join-approval coordinator: decides, event by event, what to do on the
/// platform, over the registry of outstanding challenges.
///
/// Each method runs to its end without interruption, so a caller that shares
/// one `Coordinator` between concurrent tasks behind a lock makes every removal from
/// the registry indivisible: of an acknowledgment and a timeout for the same
/// user, the one that runs first resolves the challenge and the other finds
/// nothing.
pub struct Coordinator {
    registry: Registry,
}

impl Coordinator {
    pub closed spec fn wf(&self) -> bool {
        self.registry.wf()
    }

    pub closed spec fn view(&self) -> Pending {
        self.registry@
    }

    /// A coordinator with no outstanding challenge.
    pub fn new() -> (g: Coordinator)
        ensures
            g.wf(),
            g@ == Pending::empty(),
    {
        Coordinator { registry: Registry::new() }
    }

    /// A user joined: mute them, then post the challenge as a reply to the
    /// join message. Nothing is recorded until the challenge is posted.
    pub fn welcome(chat_id: ChatId, user_id: UserId, join_message_id: MessageId) -> (r: Vec<Action>)
        ensures
            r@ == welcome_actions(chat_id, user_id, join_message_id),
    {
        let mut r: Vec<Action> = Vec::new();
        r.push(Action::Restrict { chat_id, user_id });
        r.push(Action::SendChallenge { chat_id, user_id, reply_to: join_message_id });
        assert(r@ =~= welcome_actions(chat_id, user_id, join_message_id));
        r
    }

    /// The challenge for a user was posted (`sent` holds its message) or
    /// could not be posted (`sent` is `None`). A posted challenge becomes
    /// outstanding and one timer is started for it; a failed one leaves no
    /// trace and starts no timer.
    pub fn challenge_sent(&mut self, chat_id: ChatId, user_id: UserId, sent: Option<MessageId>) -> (r:
        Vec<Action>)
        requires
            old(self).wf(),
        ensures
            final(self).wf(),
            (final(self)@, r@) == after_send(old(self)@, chat_id, user_id, sent),
            sent is None ==> final(self)@ == old(self)@ && r@.len() == 0,
    {
        let mut r: Vec<Action> = Vec::new();
        match sent {
            Some(m) => {
                self.registry.insert(chat_id, user_id, m);
                r.push(
                    Action::ScheduleTimeout {
                        chat_id,
                        user_id,
                        delay_secs: CHALLENGE_TIMEOUT_SECS,
                    },
                );
            },
            None => {},
        }
        assert(r@ =~= after_send(old(self)@, chat_id, user_id, sent).1);
        r
    }

    /// The waiting time of a user's challenge is over. If it is still
    /// outstanding, it is taken from the registry and the user is expelled,
    /// unbanned and their challenge deleted; if an acknowledgment took it
    /// first, nothing is done.
    pub fn timeout_elapsed(&mut self, chat_id: ChatId, user_id: UserId) -> (r: Vec<Action>)
        requires
            old(self).wf(),
        ensures
            final(self).wf(),
            (final(self)@, r@) == after_timeout(old(self)@, chat_id, user_id),
    {
        let mut r: Vec<Action> = Vec::new();
        match self.registry.take_if_present(chat_id, user_id) {
            Some(m) => {
                r.push(Action::Expel { chat_id, user_id });
                r.push(Action::Unban { chat_id, user_id });
                r.push(Action::DeleteMessage { chat_id, message_id: m });
            },
            None => {},
        }
        assert(r@ =~= after_timeout(old(self)@, chat_id, user_id).1);
        r
    }

    /// A user acknowledged the challenge: unmute them, and if the challenge
    /// is still outstanding, take it from the registry and delete it. An
    /// acknowledgment that comes after the timeout resolved the challenge
    /// neither fails nor admits anything more.
    pub fn approve_user(&mut self, chat_id: ChatId, user_id: UserId) -> (r: Vec<Action>)
        requires
            old(self).wf(),
        ensures
            final(self).wf(),
            (final(self)@, r@) == after_acknowledge(old(self)@, chat_id, user_id),
    {
        let mut r: Vec<Action> = Vec::new();
        r.push(Action::Unrestrict { chat_id, user_id });
        match self.registry.take_if_present(chat_id, user_id) {
            Some(m) => {
                r.push(Action::DeleteMessage { chat_id, message_id: m });
            },
            None => {},
        }
        assert(r@ =~= after_acknowledge(old(self)@, chat_id, user_id).1);
        r
    }

    /// Responds to one event with the actions to perform, in order.
    pub fn handle(&mut self, event: Event) -> (r: Vec<Action>)
        requires
            old(self).wf(),
        ensures
            final(self).wf(),
            (final(self)@, r@) == step(old(self)@, event),
    {
        match event {
            Event::MemberJoined { chat_id, user_id, join_message_id } => {
                Coordinator::welcome(chat_id, user_id, join_message_id)
            },
            Event::ChallengeSent { chat_id, user_id, message_id } => {
                self.challenge_sent(chat_id, user_id, Some(message_id))
            },
            Event::ChallengeFailed { chat_id, user_id } => {
                self.challenge_sent(chat_id, user_id, None)
            },
            Event::ControlActivated { chat_id, user_id } => self.approve_user(chat_id, user_id),
            Event::TimeoutElapsed { chat_id, user_id } => self.timeout_elapsed(chat_id, user_id),
        }
    }

    /// The challenge message outstanding for the user in the channel, if any.
    pub fn pending_message(&self, chat_id: ChatId, user_id: UserId) -> (r: Option<MessageId>)
        requires
            self.wf(),
        ensures
            r == (if self@.contains_key((chat_id, user_id)) {
                Some(self@[(chat_id, user_id)])
            } else {
                None::<MessageId>
            }),
    {
        self.registry.pending_message(chat_id, user_id)
    }
}

} // verus!
