//! The state of the authentication service: the registered identities and
//! the token authority.
//!
//! The identities are kept in the order of their registration. No two of
//! them share a username, an email or a subject id.
use vstd::prelude::*;
use crate::auth_service::register::User;
use crate::auth_service::register::UserView;
use crate::auth_service::token::TokenAuthority;
use crate::text::same_text;

verus! {

/// The work factor that passwords are hashed with unless another is chosen.
pub const DEFAULT_HASH_COST: u32 = 12;

/// Whether some identity in `users` has the username `username`.
pub open spec fn has_username(users: Seq<UserView>, username: Seq<char>) -> bool {
    exists|i: int| 0 <= i < users.len() && (#[trigger] users[i]).username == username
}

/// Whether some identity in `users` has the email `email`.
pub open spec fn has_email(users: Seq<UserView>, email: Seq<char>) -> bool {
    exists|i: int| 0 <= i < users.len() && (#[trigger] users[i]).email == email
}

/// Whether some identity in `users` has the subject id `user_id`.
pub open spec fn has_subject(users: Seq<UserView>, user_id: Seq<char>) -> bool {
    exists|i: int| 0 <= i < users.len() && (#[trigger] users[i]).user_id == user_id
}

/// No two identities share a username, an email or a subject id.
pub open spec fn distinct_identities(users: Seq<UserView>) -> bool {
    forall|i: int, j: int|
        0 <= i < j < users.len() ==> {
            &&& (#[trigger] users[i]).username != (#[trigger] users[j]).username
            &&& users[i].email != users[j].email
            &&& users[i].user_id != users[j].user_id
        }
}

/// The identity registered under `username`, if there is one.
pub open spec fn find_user(users: Seq<UserView>, username: Seq<char>) -> Option<UserView> {
    if has_username(users, username) {
        Some(
            users[choose|i: int|
                0 <= i < users.len() && (#[trigger] users[i]).username == username],
        )
    } else {
        None
    }
}

/// The state of the authentication service.
pub struct AppState {
    users: Vec<User>,
    authority: TokenAuthority,
    hash_cost: u32,
}

impl AppState {
    /// The registered identities, oldest first.
    pub closed spec fn users(&self) -> Seq<UserView> {
        self.users@.map_values(|u: User| u@)
    }

    /// The secret that signs this service's tokens.
    pub closed spec fn secret(&self) -> Seq<u8> {
        self.authority.secret()
    }

    /// The work factor that passwords are hashed with.
    pub closed spec fn hash_cost(&self) -> u32 {
        self.hash_cost
    }

    #[verifier::type_invariant]
    spec fn identities_are_distinct(&self) -> bool {
        distinct_identities(self.users())
    }

    /// A service without identities that signs its tokens with `secret` and
    /// hashes passwords with the default work factor.
    pub fn new(secret: Vec<u8>) -> (state: AppState)
        ensures
            state.users() == Seq::<UserView>::empty(),
            state.secret() == secret@,
            state.hash_cost() == DEFAULT_HASH_COST,
    {
        AppState::with_hash_cost(secret, DEFAULT_HASH_COST)
    }

    /// A service without identities that signs its tokens with `secret` and
    /// hashes passwords with the work factor `hash_cost`.
    pub fn with_hash_cost(secret: Vec<u8>, hash_cost: u32) -> (state: AppState)
        ensures
            state.users() == Seq::<UserView>::empty(),
            state.secret() == secret@,
            state.hash_cost() == hash_cost,
    {
        let authority = TokenAuthority::new(secret);
        let state = AppState { users: Vec::new(), authority, hash_cost };
        state
    }

    /// The token authority of this service.
    pub fn authority(&self) -> (authority: &TokenAuthority)
        ensures
            authority.secret() == self.secret(),
    {
        &self.authority
    }

    /// The work factor that passwords are hashed with.
    pub fn cost(&self) -> (cost: u32)
        ensures
            cost == self.hash_cost(),
    {
        self.hash_cost
    }

    /// The number of registered identities.
    pub fn user_count(&self) -> (n: usize)
        ensures
            n == self.users().len(),
    {
        self.users.len()
    }

    /// The registered identities, oldest first. No two of them share a
    /// username, an email or a subject id.
    pub fn identities(&self) -> (users: &Vec<User>)
        ensures
            users@.map_values(|u: User| u@) == self.users(),
            distinct_identities(self.users()),
    {
        proof {
            use_type_invariant(self);
        }
        &self.users
    }

    /// Looks up the identity registered under `username`.
    pub fn find_user(&self, username: &str) -> (found: Option<&User>)
        ensures
            match found {
                Some(user) => find_user(self.users(), username@) == Some(user@),
                None => find_user(self.users(), username@) is None,
            },
    {
        proof {
            use_type_invariant(self);
        }
        let n: usize = self.users.len();
        let mut i: usize = 0;
        while i < n
            invariant
                i <= n,
                n == self.users@.len(),
                distinct_identities(self.users()),
                forall|j: int| 0 <= j < i ==> (#[trigger] self.users()[j]).username != username@,
            decreases n - i,
        {
            if same_text(self.users[i].username.as_str(), username) {
                assert(self.users()[i as int] == self.users@[i as int]@);
                return Some(&self.users[i]);
            }
            i += 1;
        }
        None
    }

    /// Tells whether some identity has the email `email`.
    pub fn email_in_use(&self, email: &str) -> (used: bool)
        ensures
            used == has_email(self.users(), email@),
    {
        let n: usize = self.users.len();
        let mut i: usize = 0;
        while i < n
            invariant
                i <= n,
                n == self.users@.len(),
                forall|j: int| 0 <= j < i ==> (#[trigger] self.users()[j]).email != email@,
            decreases n - i,
        {
            if same_text(self.users[i].email.as_str(), email) {
                assert(self.users()[i as int].email == email@);
                return true;
            }
            i += 1;
        }
        false
    }

    /// Tells whether some identity has the subject id `user_id`.
    pub fn subject_in_use(&self, user_id: &str) -> (used: bool)
        ensures
            used == has_subject(self.users(), user_id@),
    {
        let n: usize = self.users.len();
        let mut i: usize = 0;
        while i < n
            invariant
                i <= n,
                n == self.users@.len(),
                forall|j: int| 0 <= j < i ==> (#[trigger] self.users()[j]).user_id != user_id@,
            decreases n - i,
        {
            if same_text(self.users[i].user_id.as_str(), user_id) {
                assert(self.users()[i as int].user_id == user_id@);
                return true;
            }
            i += 1;
        }
        false
    }

    /// Adds an identity that shares no username, email or subject id with
    /// those already registered.
    pub(crate) fn add_user(&mut self, user: User)
        requires
            !has_username(old(self).users(), user@.username),
            !has_email(old(self).users(), user@.email),
            !has_subject(old(self).users(), user@.user_id),
        ensures
            final(self).users() == old(self).users().push(user@),
            final(self).secret() == old(self).secret(),
            final(self).hash_cost() == old(self).hash_cost(),
    {
        proof {
            use_type_invariant(&*self);
        }
        let ghost before = self.users();
        // The list is taken out, extended, and put back, so that the state
        // is never seen with a half-made list.
        let mut users: Vec<User> = Vec::new();
        core::mem::swap(&mut self.users, &mut users);
        users.push(user);
        assert(users@.map_values(|u: User| u@) =~= before.push(user@));
        core::mem::swap(&mut self.users, &mut users);
    }
}

} // verus!
