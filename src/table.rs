//! A table from user identity to one value per user.
use vstd::prelude::*;

verus! {

/// The identity of a registry user.
#[derive(Clone, Copy, PartialEq, Eq, Structural, Debug, Hash)]
pub struct UserId(pub u64);

/// One value per user, kept as a list of entries with distinct users.
pub struct UserTable<T> {
    entries: Vec<(UserId, T)>,
    contents: Ghost<Map<UserId, T>>,
}

impl<T> View for UserTable<T> {
    type V = Map<UserId, T>;

    closed spec fn view(&self) -> Map<UserId, T> {
        self.contents@
    }
}

impl<T: Copy> UserTable<T> {
    /// The entries name each user at most once, and are exactly the view.
    pub closed spec fn wf(&self) -> bool {
        &&& forall|i: int, j: int|
            0 <= i < j < self.entries@.len() ==> self.entries@[i].0 != self.entries@[j].0
        &&& forall|i: int|
            #![trigger self.entries@[i]]
            0 <= i < self.entries@.len() ==> self.contents@.contains_key(self.entries@[i].0)
                && self.contents@[self.entries@[i].0] == self.entries@[i].1
        &&& forall|u: UserId|
            #[trigger] self.contents@.contains_key(u) ==> exists|i: int|
                0 <= i < self.entries@.len() && self.entries@[i].0 == u
    }

    pub fn new() -> (r: Self)
        ensures
            r.wf(),
            r@ == Map::<UserId, T>::empty(),
    {
        UserTable { entries: Vec::new(), contents: Ghost(Map::empty()) }
    }

    fn position(&self, user: UserId) -> (r: Option<usize>)
        requires
            self.wf(),
        ensures
            match r {
                Some(i) => i < self.entries@.len() && self.entries@[i as int].0 == user,
                None => !self@.contains_key(user),
            },
    {
        let mut i: usize = 0;
        while i < self.entries.len()
            invariant
                i <= self.entries@.len(),
                forall|j: int| 0 <= j < i ==> self.entries@[j].0 != user,
            decreases self.entries@.len() - i,
        {
            if self.entries[i].0 == user {
                return Some(i);
            }
            i = i + 1;
        }
        None
    }

    /// The value held for `user`, if any.
    pub fn get(&self, user: UserId) -> (r: Option<T>)
        requires
            self.wf(),
        ensures
            r == (if self@.contains_key(user) {
                Some(self@[user])
            } else {
                None
            }),
    {
        match self.position(user) {
            Some(i) => Some(self.entries[i].1),
            None => None,
        }
    }

    /// Holds `value` for `user`, replacing any earlier value.
    pub fn insert(&mut self, user: UserId, value: T)
        requires
            old(self).wf(),
        ensures
            final(self).wf(),
            final(self)@ == old(self)@.insert(user, value),
    {
        let ghost old_contents = self.contents@;
        match self.position(user) {
            Some(i) => {
                self.entries[i] = (user, value);
                self.contents = Ghost(old_contents.insert(user, value));
                assert(self.entries@[i as int].0 == user);
            },
            None => {
                self.entries.push((user, value));
                self.contents = Ghost(old_contents.insert(user, value));
                assert(self.entries@[self.entries@.len() - 1].0 == user);
            },
        }
        assert forall|u: UserId| #[trigger] self.contents@.contains_key(u) implies exists|i: int|
            0 <= i < self.entries@.len() && self.entries@[i].0 == u by {
            if u != user {
                let k = choose|i: int|
                    0 <= i < old(self).entries@.len() && old(self).entries@[i].0 == u;
                assert(self.entries@[k].0 == u);
            }
        }
    }
}

} // verus!
