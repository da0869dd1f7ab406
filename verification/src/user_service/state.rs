//! The state of the profile service: the stored profiles and the address
//! of the authentication service.
//!
//! The profiles are kept in the order of their creation. No two of them
//! have the same subject id.
use vstd::prelude::*;
use crate::text::same_text;
use crate::user_service::models::UserProfile;
use crate::user_service::models::UserProfileView;

verus! {

/// Whether `profiles` holds a profile of the subject `user_id`.
pub open spec fn has_profile(profiles: Seq<UserProfileView>, user_id: Seq<char>) -> bool {
    exists|i: int| 0 <= i < profiles.len() && (#[trigger] profiles[i]).user_id == user_id
}

/// The place in `profiles` of the profile of the subject `user_id`. It
/// means something only if there is such a profile.
pub open spec fn profile_index(profiles: Seq<UserProfileView>, user_id: Seq<char>) -> int {
    choose|i: int| 0 <= i < profiles.len() && (#[trigger] profiles[i]).user_id == user_id
}

/// The profile of the subject `user_id`, if there is one.
pub open spec fn find_profile(profiles: Seq<UserProfileView>, user_id: Seq<char>) -> Option<
    UserProfileView,
> {
    if has_profile(profiles, user_id) {
        Some(profiles[profile_index(profiles, user_id)])
    } else {
        None
    }
}

/// No two profiles have the same subject id.
pub open spec fn distinct_subjects(profiles: Seq<UserProfileView>) -> bool {
    forall|i: int, j: int|
        0 <= i < j < profiles.len() ==> (#[trigger] profiles[i]).user_id != (
        #[trigger] profiles[j]).user_id
}

/// The state of the profile service.
pub struct AppState {
    profiles: Vec<UserProfile>,
    auth_service_url: String,
}

impl AppState {
    /// The stored profiles, oldest first.
    pub closed spec fn profiles(&self) -> Seq<UserProfileView> {
        self.profiles@.map_values(|p: UserProfile| p@)
    }

    /// The base address of the authentication service.
    pub closed spec fn auth_service_url(&self) -> Seq<char> {
        self.auth_service_url@
    }

    #[verifier::type_invariant]
    spec fn subjects_are_distinct(&self) -> bool {
        distinct_subjects(self.profiles())
    }

    /// A service without profiles that has tokens validated by the
    /// authentication service at `auth_service_url`.
    pub fn new(auth_service_url: String) -> (state: AppState)
        ensures
            state.profiles() == Seq::<UserProfileView>::empty(),
            state.auth_service_url() == auth_service_url@,
    {
        let state = AppState { profiles: Vec::new(), auth_service_url };
        state
    }

    /// The base address of the authentication service.
    pub fn auth_url(&self) -> (url: &str)
        ensures
            url@ == self.auth_service_url(),
    {
        self.auth_service_url.as_str()
    }

    /// The stored profiles, oldest first. No two of them have the same
    /// subject id.
    pub fn stored(&self) -> (profiles: &Vec<UserProfile>)
        ensures
            profiles@.map_values(|p: UserProfile| p@) == self.profiles(),
            distinct_subjects(self.profiles()),
    {
        proof {
            use_type_invariant(self);
        }
        &self.profiles
    }

    /// Finds the place of the profile of the subject `user_id`.
    pub(crate) fn position(&self, user_id: &str) -> (found: Option<usize>)
        ensures
            distinct_subjects(self.profiles()),
            match found {
                Some(i) => {
                    &&& has_profile(self.profiles(), user_id@)
                    &&& i == profile_index(self.profiles(), user_id@)
                    &&& i < self.profiles().len()
                },
                None => !has_profile(self.profiles(), user_id@),
            },
    {
        proof {
            use_type_invariant(self);
        }
        let n: usize = self.profiles.len();
        let mut i: usize = 0;
        while i < n
            invariant
                i <= n,
                n == self.profiles@.len(),
                distinct_subjects(self.profiles()),
                forall|j: int| 0 <= j < i ==> (#[trigger] self.profiles()[j]).user_id != user_id@,
            decreases n - i,
        {
            if same_text(self.profiles[i].user_id.as_str(), user_id) {
                assert(self.profiles()[i as int].user_id == user_id@);
                return Some(i);
            }
            i += 1;
        }
        None
    }

    /// Looks up the profile of the subject `user_id`.
    pub fn find_profile(&self, user_id: &str) -> (found: Option<&UserProfile>)
        ensures
            match found {
                Some(profile) => find_profile(self.profiles(), user_id@) == Some(profile@),
                None => find_profile(self.profiles(), user_id@) is None,
            },
    {
        match self.position(user_id) {
            Some(i) => {
                Some(&self.profiles[i])
            },
            None => None,
        }
    }

    /// Adds a profile of a subject that has none yet, after the others.
    pub(crate) fn add_profile(&mut self, profile: UserProfile)
        requires
            !has_profile(old(self).profiles(), profile@.user_id),
        ensures
            final(self).profiles() == old(self).profiles().push(profile@),
            final(self).auth_service_url() == old(self).auth_service_url(),
    {
        proof {
            use_type_invariant(&*self);
        }
        let ghost before = self.profiles();
        // The list is taken out, changed, and put back, so that the state is
        // never seen with a half-made list.
        let mut profiles: Vec<UserProfile> = Vec::new();
        core::mem::swap(&mut self.profiles, &mut profiles);
        profiles.push(profile);
        assert(profiles@.map_values(|p: UserProfile| p@) =~= before.push(profile@));
        core::mem::swap(&mut self.profiles, &mut profiles);
    }

    /// Puts `profile` in the place `i`, where a profile of the same subject
    /// stands.
    pub(crate) fn replace_profile(&mut self, i: usize, profile: UserProfile)
        requires
            i < old(self).profiles().len(),
            old(self).profiles()[i as int].user_id == profile@.user_id,
        ensures
            final(self).profiles() == old(self).profiles().update(i as int, profile@),
            final(self).auth_service_url() == old(self).auth_service_url(),
    {
        proof {
            use_type_invariant(&*self);
        }
        let ghost before = self.profiles();
        let mut profiles: Vec<UserProfile> = Vec::new();
        core::mem::swap(&mut self.profiles, &mut profiles);
        profiles.set(i, profile);
        assert(profiles@.map_values(|p: UserProfile| p@) =~= before.update(i as int, profile@));
        core::mem::swap(&mut self.profiles, &mut profiles);
    }

    /// Takes the profile in the place `i` away. The others keep their order.
    pub(crate) fn remove_profile(&mut self, i: usize)
        requires
            i < old(self).profiles().len(),
        ensures
            final(self).profiles() == old(self).profiles().remove(i as int),
            !has_profile(final(self).profiles(), old(self).profiles()[i as int].user_id),
            final(self).auth_service_url() == old(self).auth_service_url(),
    {
        proof {
            use_type_invariant(&*self);
        }
        let ghost before = self.profiles();
        let mut profiles: Vec<UserProfile> = Vec::new();
        core::mem::swap(&mut self.profiles, &mut profiles);
        profiles.remove(i);
        assert(profiles@.map_values(|p: UserProfile| p@) =~= before.remove(i as int));
        core::mem::swap(&mut self.profiles, &mut profiles);
    }
}

} // verus!
