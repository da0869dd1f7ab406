//! Deleting a profile.
use vstd::prelude::*;
use crate::user_service::auth::check_owner;
use crate::user_service::auth::owner_refusal;
use crate::user_service::error::AppError;
use crate::user_service::models::ValidateTokenResponse;
use crate::user_service::state::AppState;
use crate::user_service::state::has_profile;
use crate::user_service::state::profile_index;

verus! {

/// The answer to a deletion that went through.
#[derive(Debug, Clone, PartialEq, Eq)]
pub struct DeleteProfileResponse {
    pub user_id: String,
    pub message: String,
}

/// The model of [`DeleteProfileResponse`].
pub struct DeleteProfileResponseView {
    pub user_id: Seq<char>,
    pub message: Seq<char>,
}

impl View for DeleteProfileResponse {
    type V = DeleteProfileResponseView;

    open spec fn view(&self) -> DeleteProfileResponseView {
        DeleteProfileResponseView { user_id: self.user_id@, message: self.message@ }
    }
}

/// Deletes the profile of the subject `user_id`.
///
/// `caller` is what the authentication of the request arrived at. If that
/// is a failure, the answer is that failure. If the caller is not the
/// subject `user_id`, the answer is `Forbidden`, whether or not the subject
/// has a profile: ownership is judged before existence, so that a stranger
/// learns nothing of which profiles exist. If the caller is the subject and
/// has no profile, the answer is `UserNotFound`. Nothing changes in any of
/// these cases. Otherwise the profile is taken away and the others keep
/// their order.
pub fn delete_user(
    state: &mut AppState,
    caller: Result<ValidateTokenResponse, AppError>,
    user_id: String,
) -> (r: Result<DeleteProfileResponse, AppError>)
    ensures
        final(state).auth_service_url() == old(state).auth_service_url(),
        match owner_refusal(caller, user_id@, old(state).profiles()) {
            Some(e) => {
                &&& r == Err::<DeleteProfileResponse, AppError>(e)
                &&& final(state).profiles() == old(state).profiles()
            },
            None => {
                &&& r matches Ok(response)
                &&& response.user_id@ == user_id@
                &&& response.message@ == "Profile deleted successfully"@
                &&& final(state).profiles() == old(state).profiles().remove(
                    profile_index(old(state).profiles(), user_id@),
                )
                &&& !has_profile(final(state).profiles(), user_id@)
            },
        },
{
    let i: usize = match check_owner(state, &caller, user_id.as_str()) {
        Err(e) => {
            return Err(e);
        },
        Ok(i) => i,
    };
    state.remove_profile(i);
    Ok(DeleteProfileResponse { user_id, message: "Profile deleted successfully".to_owned() })
}

} // verus!
