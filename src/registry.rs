use vstd::prelude::*;

verus! {

/// The names that a vector of strings holds, in order.
pub open spec fn names(v: Seq<String>) -> Seq<Seq<char>> {
    v.map_values(|x: String| x@)
}

/// The users that `m` places in `room`.
pub open spec fn users_in_room(m: Map<Seq<char>, Seq<char>>, room: Seq<char>) -> Set<Seq<char>> {
    m.dom().filter(|u: Seq<char>| m[u] == room)
}

/// The shared mapping from a connected user's name to the room that user is in.
pub struct Registry {
    entries: Vec<(String, String)>,
    model: Ghost<Map<Seq<char>, Seq<char>>>,
}

impl View for Registry {
    type V = Map<Seq<char>, Seq<char>>;

    closed spec fn view(&self) -> Map<Seq<char>, Seq<char>> {
        self.model@
    }
}

impl Registry {
    /// Each name stands in at most one entry, and the entries hold exactly the
    /// mapping that the view gives.
    pub closed spec fn wf(&self) -> bool {
        &&& forall|i: int, j: int|
            0 <= i < j < self.entries@.len() ==> self.entries@[i].0@ != self.entries@[j].0@
        &&& forall|i: int|
            0 <= i < self.entries@.len() ==> #[trigger] self.model@.contains_key(self.entries@[i].0@)
                && self.model@[self.entries@[i].0@] == self.entries@[i].1@
        &&& forall|k: Seq<char>|
            #[trigger] self.model@.contains_key(k) ==> exists|i: int|
                0 <= i < self.entries@.len() && self.entries@[i].0@ == k
    }

    /// An empty registry.
    pub fn new() -> (r: Registry)
        ensures
            r.wf(),
            r@ == Map::<Seq<char>, Seq<char>>::empty(),
    {
        Registry { entries: Vec::new(), model: Ghost(Map::empty()) }
    }

    /// Position of the entry for `user`, if there is one.
    fn position(&self, user: &String) -> (r: Option<usize>)
        requires
            self.wf(),
        ensures
            match r {
                Some(i) => i < self.entries@.len() && self.entries@[i as int].0@ == user@,
                None => !self@.contains_key(user@),
            },
    {
        let mut i: usize = 0;
        while i < self.entries.len()
            invariant
                self.wf(),
                i <= self.entries@.len(),
                forall|j: int| 0 <= j < i ==> self.entries@[j].0@ != user@,
            decreases self.entries@.len() - i,
        {
            if self.entries[i].0 == *user {
                return Some(i);
            }
            i = i + 1;
        }
        None
    }

    /// Whether `user` has an entry.
    pub fn contains(&self, user: &String) -> (r: bool)
        requires
            self.wf(),
        ensures
            r == self@.contains_key(user@),
    {
        self.position(user).is_some()
    }

    /// Records that `user` is in `room`, replacing any earlier room.
    pub fn put(&mut self, user: String, room: String)
        requires
            old(self).wf(),
        ensures
            final(self).wf(),
            final(self)@ == old(self)@.insert(user@, room@),
    {
        let ghost m = self.model@.insert(user@, room@);
        match self.position(&user) {
            Some(i) => {
                let ghost old_entries = self.entries@;
                let ghost old_model = self.model@;
                self.entries.set(i, (user, room));
                self.model = Ghost(m);
                assert forall|a: int, b: int|
                    0 <= a < b < self.entries@.len() implies self.entries@[a].0@
                    != self.entries@[b].0@ by {
                    assert(old_entries[a].0@ != old_entries[b].0@);
                }
                assert forall|a: int| 0 <= a < self.entries@.len() implies #[trigger] m.contains_key(
                    self.entries@[a].0@) && m[self.entries@[a].0@] == self.entries@[a].1@ by {
                    if a != i {
                        assert(old_entries[a].0@ != old_entries[i as int].0@);
                        assert(old_model.contains_key(old_entries[a].0@));
                    }
                }
                assert forall|k: Seq<char>| #[trigger] m.contains_key(k) implies exists|j: int|
                    0 <= j < self.entries@.len() && self.entries@[j].0@ == k by {
                    if k != old_entries[i as int].0@ {
                        let j = choose|j: int|
                            0 <= j < old_entries.len() && old_entries[j].0@ == k;
                        assert(self.entries@[j].0@ == k);
                    } else {
                        assert(self.entries@[i as int].0@ == k);
                    }
                }
            },
            None => {
                let ghost old_entries = self.entries@;
                let ghost old_model = self.model@;
                self.entries.push((user, room));
                self.model = Ghost(m);
                assert forall|a: int| 0 <= a < old_entries.len() implies old_entries[a].0@ != user@ by {
                    assert(old_model.contains_key(old_entries[a].0@));
                }
                assert forall|a: int, b: int|
                    0 <= a < b < self.entries@.len() implies self.entries@[a].0@
                    != self.entries@[b].0@ by {
                    if b < old_entries.len() {
                        assert(old_entries[a].0@ != old_entries[b].0@);
                    }
                }
                assert forall|a: int| 0 <= a < self.entries@.len() implies #[trigger] m.contains_key(
                    self.entries@[a].0@) && m[self.entries@[a].0@] == self.entries@[a].1@ by {
                    if a < old_entries.len() {
                        assert(self.entries@[a] == old_entries[a]);
                        assert(old_model.contains_key(old_entries[a].0@));
                    }
                }
                assert forall|k: Seq<char>| #[trigger] m.contains_key(k) implies exists|j: int|
                    0 <= j < self.entries@.len() && self.entries@[j].0@ == k by {
                    if k != self.entries@.last().0@ {
                        let j = choose|j: int|
                            0 <= j < old_entries.len() && old_entries[j].0@ == k;
                        assert(self.entries@[j].0@ == k);
                    } else {
                        assert(self.entries@[old_entries.len() as int].0@ == k);
                    }
                }
            },
        }
    }

    /// Drops the entry of `user`; returns whether there was one.
    pub fn remove(&mut self, user: &String) -> (r: bool)
        requires
            old(self).wf(),
        ensures
            final(self).wf(),
            final(self)@ == old(self)@.remove(user@),
            r == old(self)@.contains_key(user@),
    {
        match self.position(user) {
            Some(i) => {
                let ghost old_entries = self.entries@;
                let ghost old_model = self.model@;
                let ghost m = self.model@.remove(user@);
                self.entries.remove(i);
                self.model = Ghost(m);
                assert forall|a: int, b: int|
                    0 <= a < b < self.entries@.len() implies self.entries@[a].0@
                    != self.entries@[b].0@ by {
                    let oa = if a < i { a } else { a + 1 };
                    let ob = if b < i { b } else { b + 1 };
                    assert(self.entries@[a] == old_entries[oa]);
                    assert(self.entries@[b] == old_entries[ob]);
                }
                assert forall|a: int| 0 <= a < self.entries@.len() implies #[trigger] m.contains_key(
                    self.entries@[a].0@) && m[self.entries@[a].0@] == self.entries@[a].1@ by {
                    let oa = if a < i { a } else { a + 1 };
                    assert(self.entries@[a] == old_entries[oa]);
                    assert(old_entries[oa].0@ != old_entries[i as int].0@);
                    assert(old_model.contains_key(old_entries[oa].0@));
                }
                assert forall|k: Seq<char>| #[trigger] m.contains_key(k) implies exists|j: int|
                    0 <= j < self.entries@.len() && self.entries@[j].0@ == k by {
                    let j = choose|j: int| 0 <= j < old_entries.len() && old_entries[j].0@ == k;
                    assert(j != i);
                    if j < i {
                        assert(self.entries@[j] == old_entries[j]);
                    } else {
                        assert(self.entries@[j - 1] == old_entries[j]);
                    }
                }
                true
            },
            None => {
                assert(self.model@.remove(user@) =~= self.model@);
                false
            },
        }
    }

    /// The users whose room is `room`, each once, in no promised order.
    pub fn users_in(&self, room: &String) -> (r: Vec<String>)
        requires
            self.wf(),
        ensures
            names(r@).no_duplicates(),
            names(r@).to_set() == users_in_room(self@, room@),
    {
        let mut out: Vec<String> = Vec::new();
        let mut i: usize = 0;
        while i < self.entries.len()
            invariant
                self.wf(),
                i <= self.entries@.len(),
                names(out@).no_duplicates(),
                forall|k: Seq<char>|
                    names(out@).contains(k) <==> exists|j: int|
                        0 <= j < i && self.entries@[j].0@ == k && self.entries@[j].1@ == room@,
            decreases self.entries@.len() - i,
        {
            let ghost before = out@;
            if self.entries[i].1 == *room {
                let ghost key = self.entries@[i as int].0@;
                assert(!names(before).contains(key)) by {
                    if names(before).contains(key) {
                        let j = choose|j: int|
                            0 <= j < i && self.entries@[j].0@ == key && self.entries@[j].1@ == room@;
                        assert(self.entries@[j].0@ != self.entries@[i as int].0@);
                    }
                }
                out.push(self.entries[i].0.clone());
                assert(names(out@) =~= names(before).push(key));
                assert forall|k: Seq<char>|
                    names(out@).contains(k) <==> exists|j: int|
                        0 <= j < i + 1 && self.entries@[j].0@ == k && self.entries@[j].1@ == room@ by {
                    if names(out@).contains(k) && k != key {
                        let n = choose|n: int| 0 <= n < names(out@).len() && names(out@)[n] == k;
                        assert(names(before)[n] == k);
                        assert(names(before).contains(k));
                    }
                    if k == key {
                        assert(names(out@)[before.len() as int] == k);
                        assert(self.entries@[i as int].0@ == k && self.entries@[i as int].1@ == room@);
                    }
                    if exists|j: int|
                        0 <= j < i && self.entries@[j].0@ == k && self.entries@[j].1@ == room@ {
                        let j = choose|j: int|
                            0 <= j < i && self.entries@[j].0@ == k && self.entries@[j].1@ == room@;
                        assert(names(before).contains(k));
                        let n = choose|n: int| 0 <= n < names(before).len() && names(before)[n] == k;
                        assert(names(out@)[n] == k);
                    }
                }
            }
            i = i + 1;
        }
        assert forall|k: Seq<char>| names(out@).to_set().contains(k) <==> users_in_room(self@, room@).contains(k) by {
            if names(out@).contains(k) {
                let j = choose|j: int|
                    0 <= j < i && self.entries@[j].0@ == k && self.entries@[j].1@ == room@;
                assert(self.model@.contains_key(self.entries@[j].0@));
            }
            if users_in_room(self@, room@).contains(k) {
                assert(self.model@.contains_key(k));
                let j = choose|j: int| 0 <= j < self.entries@.len() && self.entries@[j].0@ == k;
                assert(self.model@.contains_key(self.entries@[j].0@));
            }
        }
        assert(names(out@).to_set() =~= users_in_room(self@, room@));
        out
    }
}

} // verus!
