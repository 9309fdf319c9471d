use vstd::prelude::*;

verus! {

/// Identifier of a channel (a group chat).
pub type ChatId = i64;

/// Identifier of a user.
pub type UserId = i64;

/// Identifier of a message posted in a channel.
pub type MessageId = i64;

/// One outstanding challenge: the message posted in `chat_id` for `user_id`.
#[derive(Clone, Copy, Debug, PartialEq, Eq, Structural)]
pub struct PendingApproval {
    pub chat_id: ChatId,
    pub user_id: UserId,
    pub message_id: MessageId,
}

impl PendingApproval {
    pub open spec fn key(self) -> (ChatId, UserId) {
        (self.chat_id, self.user_id)
    }
}

/// The registry of outstanding challenges, keyed by (channel, user).
///
/// Entries are kept in a vector whose keys are pairwise distinct, so the
/// registry is a finite map from keys to challenge message identifiers.
pub struct Registry {
    entries: Vec<PendingApproval>,
}

/// Whether the entry at position `i` of `s` has the key `key`.
pub open spec fn has_key_at(s: Seq<PendingApproval>, i: int, key: (ChatId, UserId)) -> bool {
    0 <= i < s.len() && s[i].key() == key
}

impl Registry {
    /// Keys are pairwise distinct.
    pub closed spec fn wf(&self) -> bool {
        forall|i: int, j: int|
            0 <= i < self.entries@.len() && 0 <= j < self.entries@.len() && i != j
                ==> #[trigger] self.entries@[i].key() != #[trigger] self.entries@[j].key()
    }

    /// The registry as a map from (channel, user) to challenge message.
    pub closed spec fn view(&self) -> Map<(ChatId, UserId), MessageId> {
        Map::new(
            |k: (ChatId, UserId)| exists|i: int| has_key_at(self.entries@, i, k),
            |k: (ChatId, UserId)|
                self.entries@[choose|i: int| has_key_at(self.entries@, i, k)].message_id,
        )
    }

    proof fn lemma_entry_in_view(&self, i: int)
        requires
            self.wf(),
            0 <= i < self.entries@.len(),
        ensures
            self@.contains_key(self.entries@[i].key()),
            self@[self.entries@[i].key()] == self.entries@[i].message_id,
    {
        let k = self.entries@[i].key();
        assert(has_key_at(self.entries@, i, k));
        let j = choose|j: int| has_key_at(self.entries@, j, k);
        assert(self.entries@[j].key() == self.entries@[i].key());
    }

    /// An empty registry.
    pub fn new() -> (r: Registry)
        ensures
            r.wf(),
            r@ == Map::<(ChatId, UserId), MessageId>::empty(),
    {
        let r = Registry { entries: Vec::new() };
        assert(r@ =~= Map::<(ChatId, UserId), MessageId>::empty());
        r
    }

    /// Where the entry for (`chat_id`, `user_id`) stands, if there is one.
    fn find(&self, chat_id: ChatId, user_id: UserId) -> (r: Option<usize>)
        requires
            self.wf(),
        ensures
            match r {
                Some(i) => has_key_at(self.entries@, i as int, (chat_id, user_id)),
                None => !self@.contains_key((chat_id, user_id)),
            },
    {
        let mut i: usize = 0;
        while i < self.entries.len()
            invariant
                0 <= i <= self.entries@.len(),
                forall|j: int| 0 <= j < i ==> #[trigger] self.entries@[j].key() != (chat_id, user_id),
            decreases self.entries@.len() - i,
        {
            let e = self.entries[i];
            if e.chat_id == chat_id && e.user_id == user_id {
                return Some(i);
            }
            i = i + 1;
        }
        None
    }

    /// Records that the challenge `message_id` is outstanding for
    /// (`chat_id`, `user_id`). A fresh join starts with no entry for its key;
    /// should one be there, it is replaced.
    pub fn insert(&mut self, chat_id: ChatId, user_id: UserId, message_id: MessageId)
        requires
            old(self).wf(),
        ensures
            final(self).wf(),
            final(self)@ == old(self)@.insert((chat_id, user_id), message_id),
    {
        let k = (chat_id, user_id);
        let entry = PendingApproval { chat_id, user_id, message_id };
        let ghost pre = *self;
        match self.find(chat_id, user_id) {
            Some(i) => {
                self.entries.set(i, entry);
                assert forall|j: int| 0 <= j < self.entries@.len() implies
                    #[trigger] self.entries@[j].key() == pre.entries@[j].key() by {}
                assert forall|kk: (ChatId, UserId)|
                    #![trigger self@.dom().contains(kk)]
                    #![trigger pre@.insert(k, message_id).dom().contains(kk)]
                    self@.contains_key(kk) == pre@.insert(k, message_id).contains_key(kk)
                        && (self@.contains_key(kk) ==> self@[kk] == pre@.insert(k, message_id)[kk]) by {
                    if self@.contains_key(kk) {
                        let j = choose|j: int| has_key_at(self.entries@, j, kk);
                        self.lemma_entry_in_view(j);
                        if j != i {
                            pre.lemma_entry_in_view(j);
                        }
                    }
                    if pre@.contains_key(kk) {
                        let j = choose|j: int| has_key_at(pre.entries@, j, kk);
                        assert(has_key_at(self.entries@, j, kk));
                    }
                    if kk == k {
                        assert(has_key_at(self.entries@, i as int, kk));
                    }
                }
                assert(self@ =~= pre@.insert(k, message_id));
            },
            None => {
                assert forall|j: int| 0 <= j < pre.entries@.len() implies
                    #[trigger] pre.entries@[j].key() != k by {
                    if pre.entries@[j].key() == k {
                        assert(has_key_at(pre.entries@, j, k));
                    }
                }
                self.entries.push(entry);
                let ghost n: int = self.entries@.len() - 1;
                assert(has_key_at(self.entries@, n, k));
                assert forall|kk: (ChatId, UserId)|
                    #![trigger self@.dom().contains(kk)]
                    #![trigger pre@.insert(k, message_id).dom().contains(kk)]
                    self@.contains_key(kk) == pre@.insert(k, message_id).contains_key(kk)
                        && (self@.contains_key(kk) ==> self@[kk] == pre@.insert(k, message_id)[kk]) by {
                    if self@.contains_key(kk) {
                        let j = choose|j: int| has_key_at(self.entries@, j, kk);
                        self.lemma_entry_in_view(j);
                        if j != n {
                            pre.lemma_entry_in_view(j);
                        }
                    }
                    if pre@.contains_key(kk) {
                        let j = choose|j: int| has_key_at(pre.entries@, j, kk);
                        assert(has_key_at(self.entries@, j, kk));
                    }
                }
                assert(self@ =~= pre@.insert(k, message_id));
            },
        }
    }

    /// Removes the entry for (`chat_id`, `user_id`) and hands back its
    /// challenge message, or `None` where there is no entry. This is the one
    /// way an entry leaves the registry.
    pub fn take_if_present(&mut self, chat_id: ChatId, user_id: UserId) -> (r: Option<MessageId>)
        requires
            old(self).wf(),
        ensures
            final(self).wf(),
            final(self)@ == old(self)@.remove((chat_id, user_id)),
            r == (if old(self)@.contains_key((chat_id, user_id)) {
                Some(old(self)@[(chat_id, user_id)])
            } else {
                None::<MessageId>
            }),
    {
        let k = (chat_id, user_id);
        let ghost pre = *self;
        match self.find(chat_id, user_id) {
            Some(i) => {
                proof {
                    pre.lemma_entry_in_view(i as int);
                }
                let e = self.entries.remove(i);
                assert forall|j: int| 0 <= j < self.entries@.len() implies
                    #[trigger] self.entries@[j] == pre.entries@[if j < i { j } else { j + 1 }] by {}
                assert forall|a: int, b: int|
                    0 <= a < self.entries@.len() && 0 <= b < self.entries@.len() && a != b
                        implies #[trigger] self.entries@[a].key() != #[trigger] self.entries@[b].key() by {
                    let oa = if a < i { a } else { a + 1 };
                    let ob = if b < i { b } else { b + 1 };
                    assert(self.entries@[a] == pre.entries@[oa]);
                    assert(self.entries@[b] == pre.entries@[ob]);
                }
                assert forall|kk: (ChatId, UserId)|
                    #![trigger self@.dom().contains(kk)]
                    #![trigger pre@.remove(k).dom().contains(kk)]
                    self@.contains_key(kk) == pre@.remove(k).contains_key(kk)
                        && (self@.contains_key(kk) ==> self@[kk] == pre@.remove(k)[kk]) by {
                    if self@.contains_key(kk) {
                        let j = choose|j: int| has_key_at(self.entries@, j, kk);
                        let oj = if j < i { j } else { j + 1 };
                        assert(self.entries@[j] == pre.entries@[oj]);
                        self.lemma_entry_in_view(j);
                        pre.lemma_entry_in_view(oj);
                        assert(oj != i);
                    }
                    if pre@.contains_key(kk) && kk != k {
                        let j = choose|j: int| has_key_at(pre.entries@, j, kk);
                        assert(j != i);
                        let nj = if j < i { j } else { j - 1 };
                        assert(self.entries@[nj] == pre.entries@[j]);
                        assert(has_key_at(self.entries@, nj, kk));
                    }
                }
                assert(self@ =~= pre@.remove(k));
                Some(e.message_id)
            },
            None => {
                assert(self@ =~= pre@.remove(k));
                None
            },
        }
    }

    /// The challenge message outstanding for (`chat_id`, `user_id`), if any.
    pub fn pending_message(&self, chat_id: ChatId, user_id: UserId) -> (r: Option<MessageId>)
        requires
            self.wf(),
        ensures
            r == (if self@.contains_key((chat_id, user_id)) {
                Some(self@[(chat_id, user_id)])
            } else {
                None::<MessageId>
            }),
    {
        match self.find(chat_id, user_id) {
            Some(i) => {
                proof {
                    self.lemma_entry_in_view(i as int);
                }
                Some(self.entries[i].message_id)
            },
            None => None,
        }
    }
}

} // verus!
