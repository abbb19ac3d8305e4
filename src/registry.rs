//! The registry of pending notifications, keyed by the caller's id.

use vstd::prelude::*;

verus! {

/// A notification as the caller hands it over: its id, the local time at
/// which it is due (as text), and the message to deliver.
pub struct NotificationMessage {
    pub id: u64,
    pub time: String,
    pub message: String,
}

/// The mathematical value of a notification.
pub ghost struct MessageView {
    pub id: u64,
    pub time: Seq<char>,
    pub message: Seq<char>,
}

impl View for NotificationMessage {
    type V = MessageView;

    open spec fn view(&self) -> MessageView {
        MessageView { id: self.id, time: self.time@, message: self.message@ }
    }
}

impl NotificationMessage {
    /// A notification with the given id, local time and message.
    pub fn new(id: u64, time: String, message: String) -> (r: NotificationMessage)
        ensures
            r.id == id,
            r.time@ == time@,
            r.message@ == message@,
    {
        NotificationMessage { id, time, message }
    }
}

/// The registry of pending notifications. At any instant an id stands for at
/// most one pending notification.
pub struct AppState {
    scheduled_messages: Vec<NotificationMessage>,
    pending: Ghost<Map<u64, MessageView>>,
}

impl View for AppState {
    type V = Map<u64, MessageView>;

    closed spec fn view(&self) -> Map<u64, MessageView> {
        self.pending@
    }
}

impl AppState {
    /// The registry is well formed: the ids in the list are distinct, and the
    /// list holds exactly the entries of the map.
    pub closed spec fn wf(&self) -> bool {
        let s = self.scheduled_messages@;
        let m = self.pending@;
        &&& forall|i: int, j: int|
            0 <= i < s.len() && 0 <= j < s.len() && i != j ==> #[trigger] s[i].id != #[trigger] s[j].id
        &&& forall|i: int|
            0 <= i < s.len() ==> m.contains_key(#[trigger] s[i].id) && m[s[i].id] == s[i]@
        &&& forall|k: u64|
            #[trigger] m.contains_key(k) ==> exists|i: int| 0 <= i < s.len() && s[i].id == k
    }

    /// An empty registry.
    pub fn new() -> (r: AppState)
        ensures
            r.wf(),
            r@ == Map::<u64, MessageView>::empty(),
    {
        AppState { scheduled_messages: Vec::new(), pending: Ghost(Map::empty()) }
    }

    /// The position of the entry for `id` in the list, if there is one.
    fn position(&self, id: u64) -> (r: Option<usize>)
        requires
            self.wf(),
        ensures
            match r {
                Some(i) => i < self.scheduled_messages@.len() && self.scheduled_messages@[i as int].id
                    == id,
                None => !self@.contains_key(id),
            },
    {
        let mut i: usize = 0;
        while i < self.scheduled_messages.len()
            invariant
                i <= self.scheduled_messages@.len(),
                forall|j: int| 0 <= j < i ==> #[trigger] self.scheduled_messages@[j].id != id,
            decreases self.scheduled_messages@.len() - i,
        {
            if self.scheduled_messages[i].id == id {
                return Some(i);
            }
            i = i + 1;
        }
        None
    }

    /// Whether an entry for `id` stands in the registry.
    pub fn contains(&self, id: u64) -> (r: bool)
        requires
            self.wf(),
        ensures
            r == self@.contains_key(id),
    {
        self.position(id).is_some()
    }

    /// Adds a notification; an entry already pending under the same id is
    /// replaced (last write wins).
    pub fn add_message(&mut self, message: NotificationMessage)
        requires
            old(self).wf(),
        ensures
            final(self).wf(),
            final(self)@ == old(self)@.insert(message.id, message@),
    {
        let ghost old_s = self.scheduled_messages@;
        let ghost id = message.id;
        let ghost mv = message@;
        let ghost new_map = self.pending@.insert(id, mv);
        match self.position(message.id) {
            Some(i) => {
                self.scheduled_messages.set(i, message);
            },
            None => {
                self.scheduled_messages.push(message);
            },
        }
        self.pending = Ghost(new_map);
        proof {
            let s = self.scheduled_messages@;
            assert forall|k: u64| #[trigger] new_map.contains_key(k) implies exists|i: int|
                0 <= i < s.len() && s[i].id == k by {
                if k == id {
                    if s.len() > old_s.len() {
                        assert(s[s.len() - 1].id == k);
                    } else {
                        let i = choose|i: int| 0 <= i < old_s.len() && old_s[i].id == id;
                        assert(s[i].id == k);
                    }
                } else {
                    let i = choose|i: int| 0 <= i < old_s.len() && old_s[i].id == k;
                    assert(s[i].id == k);
                }
            }
        }
    }

    /// Removes the entry for `id`, if there is one, and says whether there was.
    /// The check and the removal are one step: of two callers racing to remove
    /// the same entry, exactly one is told that it removed it.
    pub fn remove_message(&mut self, id: u64) -> (removed: bool)
        requires
            old(self).wf(),
        ensures
            final(self).wf(),
            final(self)@ == old(self)@.remove(id),
            removed == old(self)@.contains_key(id),
    {
        let ghost old_s = self.scheduled_messages@;
        let ghost new_map = self.pending@.remove(id);
        match self.position(id) {
            Some(i) => {
                self.scheduled_messages.remove(i);
                self.pending = Ghost(new_map);
                proof {
                    let s = self.scheduled_messages@;
                    assert forall|k: u64| #[trigger] new_map.contains_key(k) implies exists|j: int|
                        0 <= j < s.len() && s[j].id == k by {
                        let j = choose|j: int| 0 <= j < old_s.len() && old_s[j].id == k;
                        if j < i {
                            assert(s[j].id == k);
                        } else {
                            assert(j != i);
                            assert(s[j - 1].id == k);
                        }
                    }
                    assert forall|a: int| 0 <= a < s.len() implies new_map.contains_key(
                        #[trigger] s[a].id,
                    ) && new_map[s[a].id] == s[a]@ by {
                        if a < i {
                            assert(old_s[a] == s[a]);
                        } else {
                            assert(old_s[a + 1] == s[a]);
                        }
                    }
                }
                true
            },
            None => {
                proof {
                    assert(self.pending@ =~= new_map);
                }
                false
            },
        }
    }
}

impl Default for AppState {
    fn default() -> (r: AppState)
        ensures
            r.wf(),
            r@ == Map::<u64, MessageView>::empty(),
    {
        AppState::new()
    }
}

} // verus!
