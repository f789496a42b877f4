//! The store behind the service's two methods: `AddUser` writes a user under
//! its id, `GetUser` reads the user stored under an id.

use std::collections::HashMap;
use vstd::prelude::*;

use crate::user::User;

verus! {

/// Every stored user sits under its own id, and no user sits under id 0.
pub open spec fn well_keyed(users: Map<i32, User>) -> bool {
    forall|id: i32| #[trigger] users.contains_key(id) ==> id != 0 && users[id].user_id == id
}

/// The users after an `AddUser` of `user`: stored under its id, replacing any
/// user there; unchanged when its id is 0, which is refused.
pub open spec fn after_add(users: Map<i32, User>, user: User) -> Map<i32, User> {
    if user.user_id == 0 {
        users
    } else {
        users.insert(user.user_id, user)
    }
}

/// What `GetUser` finds under `user_id`.
pub open spec fn lookup(users: Map<i32, User>, user_id: i32) -> Option<User> {
    if users.contains_key(user_id) {
        Some(users[user_id])
    } else {
        None
    }
}

/// The message of the refusal of a user whose id is 0.
pub open spec fn zero_id_message() -> Seq<char> {
    "user_id must be non-zero"@
}

/// A refused request: the HTTP status that the service answers with, and why.
pub struct ServiceError {
    pub status_code: u16,
    pub message: String,
}

impl ServiceError {
    /// The refusal of an `AddUser` whose user has id 0: a bad request (400).
    pub open spec fn is_zero_id_refusal(self) -> bool {
        &&& self.status_code == 400
        &&& self.message@ == zero_id_message()
    }
}

/// The users of the service, keyed by id.
pub struct UserStore {
    users: HashMap<i32, User>,
}

impl View for UserStore {
    type V = Map<i32, User>;

    closed spec fn view(&self) -> Map<i32, User> {
        self.users@
    }
}

impl UserStore {
    /// The store's invariant: every user sits under its own id, none under 0.
    #[verifier::type_invariant]
    spec fn inv(self) -> bool {
        well_keyed(self.users@)
    }

    /// An empty store.
    pub fn new() -> (store: Self)
        ensures
            store@ == Map::<i32, User>::empty(),
    {
        UserStore { users: HashMap::new() }
    }

    /// `GetUser`: the user stored under `user_id`, if any.
    pub fn get_user(&self, user_id: i32) -> (user: Option<&User>)
        ensures
            well_keyed(self@),
            match user {
                Some(u) => lookup(self@, user_id) == Some(*u),
                None => lookup(self@, user_id).is_none(),
            },
    {
        proof {
            use_type_invariant(self);
        }
        self.users.get(&user_id)
    }

    /// `AddUser`: stores `user` under its id, replacing the user stored there.
    /// A user whose id is 0 is refused with a bad request, and nothing changes.
    pub fn add_user(&mut self, user: User) -> (result: Result<(), ServiceError>)
        ensures
            well_keyed(final(self)@),
            final(self)@ == after_add(old(self)@, user),
            match result {
                Ok(()) => user.user_id != 0,
                Err(e) => user.user_id == 0 && e.is_zero_id_refusal(),
            },
    {
        proof {
            use_type_invariant(&*self);
        }
        if user.user_id == 0 {
            proof {
                reveal_strlit("user_id must be non-zero");
            }
            return Err(
                ServiceError { status_code: 400, message: "user_id must be non-zero".to_owned() },
            );
        }
        let id = user.user_id;
        let mut users = HashMap::new();
        std::mem::swap(&mut users, &mut self.users);
        let _ = users.insert(id, user);
        self.users = users;
        Ok(())
    }
}

/// A read gives back the last write: after an `AddUser` of a user with a
/// non-zero id, `GetUser` of that id finds that user, and every other id
/// finds what it found before. A refused `AddUser` changes no read.
pub proof fn lemma_get_after_add(users: Map<i32, User>, user: User, user_id: i32)
    ensures
        lookup(after_add(users, user), user_id) == if user.user_id != 0 && user_id
            == user.user_id {
            Some(user)
        } else {
            lookup(users, user_id)
        },
{
}

/// Every `AddUser` keeps the store's invariant: users stay under their own
/// ids and id 0 stays empty.
pub proof fn lemma_add_keeps_well_keyed(users: Map<i32, User>, user: User)
    requires
        well_keyed(users),
    ensures
        well_keyed(after_add(users, user)),
{
}

/// `GetUser` of id 0 finds nobody, and a user found under an id carries that id.
pub proof fn lemma_found_user_has_its_id(users: Map<i32, User>, user_id: i32)
    requires
        well_keyed(users),
    ensures
        lookup(users, 0).is_none(),
        lookup(users, user_id) matches Some(u) ==> u.user_id == user_id && user_id != 0,
{
}

/// Of two `AddUser`s under the same id, the later one wins.
pub proof fn lemma_later_add_wins(users: Map<i32, User>, first: User, second: User)
    requires
        second.user_id != 0,
        first.user_id == second.user_id,
    ensures
        after_add(after_add(users, first), second) == after_add(users, second),
{
    assert(after_add(after_add(users, first), second) =~= after_add(users, second));
}

/// Adding the same user again changes nothing.
pub proof fn lemma_add_is_idempotent(users: Map<i32, User>, user: User)
    ensures
        after_add(after_add(users, user), user) == after_add(users, user),
{
    assert(after_add(after_add(users, user), user) =~= after_add(users, user));
}

/// `AddUser`s under different ids commute.
pub proof fn lemma_adds_under_different_ids_commute(users: Map<i32, User>, a: User, b: User)
    requires
        a.user_id != b.user_id,
    ensures
        after_add(after_add(users, a), b) == after_add(after_add(users, b), a),
{
    assert(after_add(after_add(users, a), b) =~= after_add(after_add(users, b), a));
}


/// The users after a history of `AddUser`s, applied in order.
pub open spec fn after_adds(users: Map<i32, User>, history: Seq<User>) -> Map<i32, User>
    decreases history.len(),
{
    if history.len() == 0 {
        users
    } else {
        after_add(after_adds(users, history.drop_last()), history.last())
    }
}

/// The last user in `history` whose id is `user_id`, if any.
pub open spec fn last_added(history: Seq<User>, user_id: i32) -> Option<User>
    decreases history.len(),
{
    if history.len() == 0 {
        None
    } else if history.last().user_id == user_id {
        Some(history.last())
    } else {
        last_added(history.drop_last(), user_id)
    }
}

/// A read gives back the last write, over a whole history of `AddUser`s:
/// `GetUser` of a non-zero id finds the last user added under it, and where
/// none was added, what it found before the history. Of several users added
/// under one id the last wins; adds of id 0, all refused, change no read.
pub proof fn lemma_get_after_history(users: Map<i32, User>, history: Seq<User>, user_id: i32)
    ensures
        lookup(after_adds(users, history), user_id) == if user_id != 0 && last_added(
            history,
            user_id,
        ) is Some {
            last_added(history, user_id)
        } else {
            lookup(users, user_id)
        },
    decreases history.len(),
{
    if history.len() > 0 {
        lemma_get_after_history(users, history.drop_last(), user_id);
        lemma_get_after_add(after_adds(users, history.drop_last()), history.last(), user_id);
    }
}

/// A history of `AddUser`s keeps the store's invariant.
pub proof fn lemma_history_keeps_well_keyed(users: Map<i32, User>, history: Seq<User>)
    requires
        well_keyed(users),
    ensures
        well_keyed(after_adds(users, history)),
    decreases history.len(),
{
    if history.len() > 0 {
        lemma_history_keeps_well_keyed(users, history.drop_last());
        lemma_add_keeps_well_keyed(after_adds(users, history.drop_last()), history.last());
    }
}

} // verus!
