//! The values that the profile service stores, receives and sends.
use vstd::prelude::*;

verus! {

/// A stored profile.
#[derive(Debug, PartialEq, Eq)]
pub struct UserProfile {
    /// The subject id of the profile's owner.
    pub user_id: String,
    pub username: String,
    pub email: String,
    pub full_name: String,
    pub bio: String,
    /// When the profile was created, as a timestamp for people to read.
    pub created_at: String,
}

/// The model of [`UserProfile`].
pub struct UserProfileView {
    pub user_id: Seq<char>,
    pub username: Seq<char>,
    pub email: Seq<char>,
    pub full_name: Seq<char>,
    pub bio: Seq<char>,
    pub created_at: Seq<char>,
}

impl View for UserProfile {
    type V = UserProfileView;

    open spec fn view(&self) -> UserProfileView {
        UserProfileView {
            user_id: self.user_id@,
            username: self.username@,
            email: self.email@,
            full_name: self.full_name@,
            bio: self.bio@,
            created_at: self.created_at@,
        }
    }
}

impl Clone for UserProfile {
    fn clone(&self) -> (copy: UserProfile)
        ensures
            copy == *self,
    {
        UserProfile {
            user_id: self.user_id.clone(),
            username: self.username.clone(),
            email: self.email.clone(),
            full_name: self.full_name.clone(),
            bio: self.bio.clone(),
            created_at: self.created_at.clone(),
        }
    }
}

/// A request to create a profile.
#[derive(Debug, Clone, PartialEq, Eq)]
pub struct CreateProfileRequest {
    pub user_id: String,
    pub username: String,
    pub email: String,
    pub full_name: String,
    pub bio: String,
}

/// A request to change a profile. A field that is absent is left as it is.
#[derive(Debug, Clone, PartialEq, Eq)]
pub struct UpdateProfileRequest {
    pub full_name: Option<String>,
    pub bio: Option<String>,
}

/// What the profile service sends to the authentication service to have a
/// token validated.
#[derive(Debug, Clone, PartialEq, Eq)]
pub struct ValidateTokenRequest {
    pub token: String,
}

/// What the authentication service answers to a validation: whether the
/// token is valid and whom it speaks for. This is the identity of the
/// caller for the one request that carried the token.
#[derive(Debug, Clone, PartialEq, Eq)]
pub struct ValidateTokenResponse {
    pub valid: bool,
    /// The subject id of the caller.
    pub user_id: String,
    /// The display name of the caller, if the answer held one.
    pub username: Option<String>,
}

/// The model of [`ValidateTokenResponse`].
pub struct ValidateTokenResponseView {
    pub valid: bool,
    pub user_id: Seq<char>,
    pub username: Option<Seq<char>>,
}

impl View for ValidateTokenResponse {
    type V = ValidateTokenResponseView;

    open spec fn view(&self) -> ValidateTokenResponseView {
        ValidateTokenResponseView {
            valid: self.valid,
            user_id: self.user_id@,
            username: match self.username {
                Some(name) => Some(name@),
                None => None,
            },
        }
    }
}

} // verus!
