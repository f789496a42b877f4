//! A list of users that can be searched by id: the first user in the list
//! with the id is the one found.

use vstd::prelude::*;

use crate::user::User;

verus! {

/// `i` is the first position in `users` whose user has id `key`.
pub open spec fn is_first_with_id(users: Seq<User>, key: i32, i: int) -> bool {
    &&& 0 <= i < users.len()
    &&& users[i].user_id == key
    &&& forall|j: int| 0 <= j < i ==> #[trigger] users[j].user_id != key
}

/// Some user in `users` has id `key`.
pub open spec fn has_id(users: Seq<User>, key: i32) -> bool {
    exists|i: int| 0 <= i < users.len() && #[trigger] users[i].user_id == key
}

/// The user that a search for `key` finds: the first one with that id.
pub open spec fn found_by_key(users: Seq<User>, key: i32) -> Option<User> {
    if has_id(users, key) {
        Some(users[choose|i: int| is_first_with_id(users, key, i)])
    } else {
        None
    }
}

/// At most one position is the first one with a given id.
proof fn lemma_first_is_unique(users: Seq<User>, key: i32, i: int, j: int)
    requires
        is_first_with_id(users, key, i),
        is_first_with_id(users, key, j),
    ensures
        i == j,
{
    if i < j {
        assert(users[i].user_id != key);
    } else if j < i {
        assert(users[j].user_id != key);
    }
}

/// Where some user has the id, a first such position exists.
proof fn lemma_first_exists(users: Seq<User>, key: i32)
    requires
        has_id(users, key),
    ensures
        exists|i: int| is_first_with_id(users, key, i),
    decreases users.len(),
{
    if users[0].user_id == key {
        assert(is_first_with_id(users, key, 0));
    } else {
        let rest = users.drop_first();
        let k = choose|k: int| 0 <= k < users.len() && #[trigger] users[k].user_id == key;
        assert(rest[k - 1].user_id == key);
        lemma_first_exists(rest, key);
        let i = choose|i: int| is_first_with_id(rest, key, i);
        assert forall|j: int| 0 <= j < i + 1 implies #[trigger] users[j].user_id != key by {
            if j > 0 {
                assert(users[j] == rest[j - 1]);
            }
        }
        assert(is_first_with_id(users, key, i + 1));
    }
}

/// The first user with a given id is the one found: where several users
/// share an id, the earliest of them wins.
pub proof fn lemma_first_with_id_is_found(users: Seq<User>, key: i32, i: int)
    requires
        is_first_with_id(users, key, i),
    ensures
        found_by_key(users, key) == Some(users[i]),
{
    assert(has_id(users, key));
    let c = choose|c: int| is_first_with_id(users, key, c);
    lemma_first_is_unique(users, key, i, c);
}

/// A search finds nothing exactly where no user has the id, and what it
/// finds is a user of the list with that id.
pub proof fn lemma_found_user_has_the_id(users: Seq<User>, key: i32)
    ensures
        found_by_key(users, key).is_none() <==> !has_id(users, key),
        found_by_key(users, key) matches Some(u) ==> u.user_id == key && users.contains(u),
{
    if has_id(users, key) {
        lemma_first_exists(users, key);
        let c = choose|c: int| is_first_with_id(users, key, c);
        assert(users[c] == found_by_key(users, key).unwrap());
    }
}

/// Users in a list, searched by id.
pub struct UserRegistry {
    users: Vec<User>,
    /// What a search that finds nothing falls back to: the default user.
    fallback: User,
}

impl View for UserRegistry {
    type V = Seq<User>;

    closed spec fn view(&self) -> Seq<User> {
        self.users@
    }
}

impl UserRegistry {
    /// The registry's invariant: the fallback is the default user.
    #[verifier::type_invariant]
    spec fn inv(self) -> bool {
        self.fallback.is_default()
    }

    /// A registry of `users`, in that order.
    pub fn new(users: Vec<User>) -> (registry: Self)
        ensures
            registry@ == users@,
    {
        UserRegistry { users, fallback: User::default() }
    }

    /// The users, in their order.
    pub fn users(&self) -> (users: &Vec<User>)
        ensures
            users@ == self@,
    {
        &self.users
    }

    /// The first user whose id is `key`, if any.
    pub fn find_by_key(&self, key: i32) -> (found: Option<&User>)
        ensures
            match found {
                Some(u) => found_by_key(self@, key) == Some(*u),
                None => found_by_key(self@, key).is_none(),
            },
    {
        let n = self.users.len();
        let mut i: usize = 0;
        while i < n
            invariant
                n == self.users@.len(),
                0 <= i <= n,
                forall|j: int| 0 <= j < i ==> #[trigger] self.users@[j].user_id != key,
            decreases n - i,
        {
            if self.users[i].user_id == key {
                proof {
                    lemma_first_with_id_is_found(self.users@, key, i as int);
                }
                return Some(&self.users[i]);
            }
            i = i + 1;
        }
        proof {
            if has_id(self.users@, key) {
                let k = choose|k: int|
                    0 <= k < self.users@.len() && #[trigger] self.users@[k].user_id == key;
                assert(self.users@[k].user_id != key);
            }
        }
        None
    }

    /// The first user whose id is `key`; the default user where there is none.
    pub fn find_by_key_or_default(&self, key: i32) -> (found: &User)
        ensures
            match found_by_key(self@, key) {
                Some(u) => *found == u,
                None => found.is_default(),
            },
    {
        proof {
            use_type_invariant(self);
        }
        match self.find_by_key(key) {
            Some(u) => u,
            None => &self.fallback,
        }
    }
}

} // verus!
