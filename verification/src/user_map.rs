//! The users on the server, each with the channel that reaches them.

use vstd::prelude::*;

verus! {

/// Whether `entries` holds each user of `users` once, with that user's channel, and nobody else.
pub open spec fn lists<S>(entries: Seq<(String, S)>, users: Map<Seq<char>, S>) -> bool {
    &&& forall|i: int, j: int|
        0 <= i < j < entries.len() ==> (#[trigger] entries[i]).0@ != (#[trigger] entries[j]).0@
    &&& forall|i: int|
        0 <= i < entries.len() ==> users.contains_key((#[trigger] entries[i]).0@)
            && users[entries[i].0@] == entries[i].1
    &&& forall|username: Seq<char>| #[trigger]
        users.contains_key(username) ==> exists|i: int|
            0 <= i < entries.len() && (#[trigger] entries[i]).0@ == username
}

/// The users on the server. `S` is the sending half of a user's channel.
///
/// Its view maps each username to that user's channel. No username occurs twice.
#[derive(Debug)]
pub struct UserMap<S> {
    users: Vec<(String, S)>,
}

/// Whether the user at position `i` of `entries` has this name.
spec fn is_at<S>(entries: Seq<(String, S)>, username: Seq<char>, i: int) -> bool {
    0 <= i < entries.len() && entries[i].0@ == username
}

/// The map that has the channel of each name in `entries`.
spec fn map_of<S>(entries: Seq<(String, S)>) -> Map<Seq<char>, S> {
    Map::new(
        |username: Seq<char>| exists|i: int| is_at(entries, username, i),
        |username: Seq<char>| entries[choose|i: int| is_at(entries, username, i)].1,
    )
}

/// Whether no name occurs twice in `entries`.
spec fn distinct<S>(entries: Seq<(String, S)>) -> bool {
    forall|i: int, j: int|
        0 <= i < j < entries.len() ==> (#[trigger] entries[i]).0@ != (#[trigger] entries[j]).0@
}

proof fn lemma_map_lists<S>(entries: Seq<(String, S)>)
    requires
        distinct(entries),
    ensures
        lists(entries, map_of(entries)),
{
    let users = map_of(entries);
    assert forall|i: int| 0 <= i < entries.len() implies users.contains_key(
        (#[trigger] entries[i]).0@,
    ) && users[entries[i].0@] == entries[i].1 by {
        assert(is_at(entries, entries[i].0@, i));
    }
    assert forall|username: Seq<char>| #[trigger] users.contains_key(username) implies exists|
        i: int,
    |
        0 <= i < entries.len() && (#[trigger] entries[i]).0@ == username by {
        let i = choose|i: int| is_at(entries, username, i);
        assert(entries[i].0@ == username);
    }
}

/// Entries that list the same users as a map have that map as theirs.
proof fn lemma_listed_map_is_unique<S>(entries: Seq<(String, S)>, users: Map<Seq<char>, S>)
    requires
        lists(entries, users),
    ensures
        distinct(entries),
        map_of(entries) == users,
{
    lemma_map_lists(entries);
    let own = map_of(entries);
    assert forall|username: Seq<char>| own.contains_key(username) == users.contains_key(
        username,
    ) by {
        if own.contains_key(username) {
            let i = choose|i: int| 0 <= i < entries.len() && entries[i].0@ == username;
            assert(entries[i].0@ == username);
        }
        if users.contains_key(username) {
            let i = choose|i: int| 0 <= i < entries.len() && entries[i].0@ == username;
            assert(entries[i].0@ == username);
        }
    }
    assert forall|username: Seq<char>| own.contains_key(username) implies own[username]
        == users[username] by {
        let i = choose|i: int| 0 <= i < entries.len() && entries[i].0@ == username;
        assert(entries[i].0@ == username);
    }
    assert(own =~= users);
}

impl<S> View for UserMap<S> {
    type V = Map<Seq<char>, S>;

    closed spec fn view(&self) -> Map<Seq<char>, S> {
        map_of(self.users@)
    }
}

impl<S> UserMap<S> {
    #[verifier::type_invariant]
    spec fn well_formed(self) -> bool {
        distinct(self.users@)
    }

    /// A map without users.
    pub fn new() -> (users: Self)
        ensures
            users@ == Map::<Seq<char>, S>::empty(),
    {
        let users = UserMap { users: Vec::new() };
        assert(users@ =~= Map::<Seq<char>, S>::empty());
        users
    }

    /// The users with their channels, in no particular order.
    pub fn entries(&self) -> (entries: &Vec<(String, S)>)
        ensures
            lists(entries@, self@),
    {
        proof {
            use_type_invariant(self);
            lemma_map_lists(self.users@);
        }
        &self.users
    }

    /// Where the user of this name stands.
    fn position(&self, username: &str) -> (position: Option<usize>)
        ensures
            match position {
                Some(i) => i < self.users@.len() && self.users@[i as int].0@ == username@
                    && self@.contains_key(username@) && self@[username@]
                    == self.users@[i as int].1,
                None => !self@.contains_key(username@),
            },
    {
        proof {
            use_type_invariant(self);
            lemma_map_lists(self.users@);
        }
        let wanted: String = username.to_owned();
        let mut i: usize = 0;
        while i < self.users.len()
            invariant
                i <= self.users@.len(),
                wanted@ == username@,
                lists(self.users@, self@),
                forall|j: int|
                    0 <= j < i ==> (#[trigger] self.users@[j]).0@ != username@,
            decreases self.users@.len() - i,
        {
            if self.users[i].0 == wanted {
                return Some(i);
            }
            i = i + 1;
        }
        None
    }

    /// The channel of the user of this name.
    pub fn get(&self, username: &str) -> (channel: Option<&S>)
        ensures
            match channel {
                Some(channel) => self@.contains_key(username@) && *channel == self@[username@],
                None => !self@.contains_key(username@),
            },
    {
        match self.position(username) {
            Some(i) => Some(&self.users[i].1),
            None => None,
        }
    }

    /// Gives the user of this name this channel, and returns the one that it takes the place of.
    pub fn insert(&mut self, username: String, channel: S) -> (replaced: Option<S>)
        ensures
            final(self)@ == old(self)@.insert(username@, channel),
            match replaced {
                Some(channel) => old(self)@.contains_key(username@) && channel
                    == old(self)@[username@],
                None => !old(self)@.contains_key(username@),
            },
    {
        let replaced = self.remove(username.as_str());
        let mut users: Vec<(String, S)> = Vec::new();
        proof {
            use_type_invariant(&*self);
            lemma_map_lists(self.users@);
        }
        std::mem::swap(&mut users, &mut self.users);
        let ghost before = users@;
        users.push((username, channel));
        proof {
            let after = map_of(before).insert(username@, channel);
            assert forall|name: Seq<char>| #[trigger] after.contains_key(name) implies exists|
                i: int,
            |
                0 <= i < users@.len() && (#[trigger] users@[i]).0@ == name by {
                if name == username@ {
                    assert(users@[before.len() as int].0@ == name);
                } else {
                    assert(map_of(before).contains_key(name));
                    let i = choose|i: int| 0 <= i < before.len() && before[i].0@ == name;
                    assert(users@[i].0@ == name);
                }
            }
            assert forall|i: int| 0 <= i < users@.len() implies after.contains_key(
                (#[trigger] users@[i]).0@,
            ) && after[users@[i].0@] == users@[i].1 by {
                if i < before.len() {
                    assert(users@[i] == before[i]);
                }
            }
            assert(lists(users@, after));
            lemma_listed_map_is_unique(users@, after);
        }
        self.users = users;
        replaced
    }

    /// Removes the user of this name, and returns that user's channel.
    pub fn remove(&mut self, username: &str) -> (removed: Option<S>)
        ensures
            final(self)@ == old(self)@.remove(username@),
            match removed {
                Some(channel) => old(self)@.contains_key(username@) && channel
                    == old(self)@[username@],
                None => !old(self)@.contains_key(username@),
            },
    {
        match self.position(username) {
            Some(i) => {
                let mut users: Vec<(String, S)> = Vec::new();
                proof {
                    use_type_invariant(&*self);
                    lemma_map_lists(self.users@);
                }
                std::mem::swap(&mut users, &mut self.users);
                let ghost before = users@;
                let (_, channel) = users.remove(i);
                proof {
                    let after = map_of(before).remove(username@);
                    assert forall|name: Seq<char>| #[trigger]
                        after.contains_key(name) implies exists|j: int|
                        0 <= j < users@.len() && (#[trigger] users@[j]).0@ == name by {
                        assert(map_of(before).contains_key(name));
                        let j = choose|j: int| 0 <= j < before.len() && before[j].0@ == name;
                        if j < i {
                            assert(users@[j].0@ == name);
                        } else {
                            assert(users@[j - 1].0@ == name);
                        }
                    }
                    lemma_listed_map_is_unique(users@, after);
                }
                self.users = users;
                Some(channel)
            },
            None => {
                assert(self@.remove(username@) =~= self@);
                None
            },
        }
    }
}

impl<S> Default for UserMap<S> {
    fn default() -> (users: Self)
        ensures
            users@ == Map::<Seq<char>, S>::empty(),
    {
        Self::new()
    }
}

} // verus!
