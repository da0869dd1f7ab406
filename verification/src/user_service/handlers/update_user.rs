//! Changing a profile.
use vstd::prelude::*;
use crate::user_service::auth::check_owner;
use crate::user_service::auth::owner_refusal;
use crate::user_service::error::AppError;
use crate::user_service::models::UpdateProfileRequest;
use crate::user_service::models::UserProfile;
use crate::user_service::models::UserProfileView;
use crate::user_service::models::ValidateTokenResponse;
use crate::user_service::state::AppState;
use crate::user_service::state::profile_index;

verus! {

/// The answer to a change that went through.
#[derive(Debug, Clone, PartialEq, Eq)]
pub struct UpdateProfileResponse {
    pub user_id: String,
    pub message: String,
}

/// The model of [`UpdateProfileResponse`].
pub struct UpdateProfileResponseView {
    pub user_id: Seq<char>,
    pub message: Seq<char>,
}

impl View for UpdateProfileResponse {
    type V = UpdateProfileResponseView;

    open spec fn view(&self) -> UpdateProfileResponseView {
        UpdateProfileResponseView { user_id: self.user_id@, message: self.message@ }
    }
}

/// `profile` after the change that `req` asks for: each field that the
/// request holds replaces the profile's, and all else stays.
pub open spec fn updated_profile(
    profile: UserProfileView,
    req: UpdateProfileRequest,
) -> UserProfileView {
    UserProfileView {
        full_name: match req.full_name {
            Some(full_name) => full_name@,
            None => profile.full_name,
        },
        bio: match req.bio {
            Some(bio) => bio@,
            None => profile.bio,
        },
        ..profile
    }
}

/// Changes the profile of the subject `user_id` as `req` asks.
///
/// `caller` is what the authentication of the request arrived at. If that
/// is a failure, the answer is that failure. If the caller is not the
/// subject `user_id`, the answer is `Forbidden`, whether or not the subject
/// has a profile: ownership is judged before existence, so that a stranger
/// learns nothing of which profiles exist. If the caller is the subject and
/// has no profile, the answer is `UserNotFound`. Nothing changes in any of
/// these cases. Otherwise the profile is changed in its place.
pub fn update_user(
    state: &mut AppState,
    caller: Result<ValidateTokenResponse, AppError>,
    user_id: String,
    req: UpdateProfileRequest,
) -> (r: Result<UpdateProfileResponse, AppError>)
    ensures
        final(state).auth_service_url() == old(state).auth_service_url(),
        match owner_refusal(caller, user_id@, old(state).profiles()) {
            Some(e) => {
                &&& r == Err::<UpdateProfileResponse, AppError>(e)
                &&& final(state).profiles() == old(state).profiles()
            },
            None => {
                &&& r matches Ok(response)
                &&& response.user_id@ == user_id@
                &&& response.message@ == "Profile updated successfully"@
                &&& final(state).profiles() == old(state).profiles().update(
                    profile_index(old(state).profiles(), user_id@),
                    updated_profile(
                        old(state).profiles()[profile_index(old(state).profiles(), user_id@)],
                        req,
                    ),
                )
            },
        },
{
    let i: usize = match check_owner(state, &caller, user_id.as_str()) {
        Err(e) => {
            return Err(e);
        },
        Ok(i) => i,
    };
    let stored = state.stored();
    let current = &stored[i];
    let changed = UserProfile {
        user_id: current.user_id.clone(),
        username: current.username.clone(),
        email: current.email.clone(),
        full_name: match req.full_name {
            Some(full_name) => full_name,
            None => current.full_name.clone(),
        },
        bio: match req.bio {
            Some(bio) => bio,
            None => current.bio.clone(),
        },
        created_at: current.created_at.clone(),
    };
    state.replace_profile(i, changed);
    Ok(UpdateProfileResponse { user_id, message: "Profile updated successfully".to_owned() })
}

} // verus!
