//! The identities that the orchestrator may refer to.

use vstd::prelude::*;

verus! {

/// The users that exist. Looking one up cannot fail.
pub struct UserDirectory {
    ids: Vec<i32>,
}

impl View for UserDirectory {
    type V = Set<i32>;

    closed spec fn view(&self) -> Set<i32> {
        self.ids@.to_set()
    }
}

impl UserDirectory {
    /// A directory without users.
    pub fn new() -> (directory: UserDirectory)
        ensures
            directory@ == Set::<i32>::empty(),
    {
        let directory = UserDirectory { ids: Vec::new() };
        assert(directory.ids@.to_set() =~= Set::<i32>::empty());
        directory
    }

    /// Whether the user exists.
    pub fn contains(&self, user_id: i32) -> (found: bool)
        ensures
            found == self@.contains(user_id),
    {
        let mut at: usize = 0;
        while at < self.ids.len()
            invariant
                at <= self.ids@.len(),
                forall|i: int| 0 <= i < at ==> self.ids@[i] != user_id,
            decreases self.ids@.len() - at,
        {
            if self.ids[at] == user_id {
                assert(self.ids@.contains(user_id));
                return true;
            }
            at = at + 1;
        }
        assert(!self.ids@.contains(user_id));
        false
    }

    /// Makes the user exist.
    pub fn register(&mut self, user_id: i32)
        ensures
            final(self)@ == old(self)@.insert(user_id),
    {
        if !self.contains(user_id) {
            self.ids.push(user_id);
            assert(self.ids@.to_set() =~= old(self).ids@.to_set().insert(user_id)) by {
                assert forall|id: i32| self.ids@.contains(id) <==> (old(self).ids@.contains(id) || id
                    == user_id) by {
                    if old(self).ids@.contains(id) {
                        let i = choose|i: int| 0 <= i < old(self).ids@.len() && old(self).ids@[i] == id;
                        assert(self.ids@[i] == id);
                    }
                    if id == user_id {
                        assert(self.ids@[self.ids@.len() - 1] == id);
                    }
                    if self.ids@.contains(id) {
                        let i = choose|i: int| 0 <= i < self.ids@.len() && self.ids@[i] == id;
                        if i < old(self).ids@.len() {
                            assert(old(self).ids@[i] == id);
                        }
                    }
                }
            }
        } else {
            assert(self@ =~= old(self)@.insert(user_id));
        }
    }
}

} // verus!
