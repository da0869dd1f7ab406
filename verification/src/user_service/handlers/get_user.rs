//! Reading one profile.
use vstd::prelude::*;
use crate::user_service::auth::check_owner;
use crate::user_service::auth::owner_refusal;
use crate::user_service::error::AppError;
use crate::user_service::models::UserProfile;
use crate::user_service::models::ValidateTokenResponse;
use crate::user_service::state::AppState;
use crate::user_service::state::profile_index;

verus! {

/// Reads the profile of the subject `user_id`.
///
/// `caller` is what the authentication of the request arrived at. If that
/// is a failure, the answer is that failure. If the caller is not the
/// subject `user_id`, the answer is `Forbidden`, whether or not the subject
/// has a profile: ownership is judged before existence, so that a stranger
/// learns nothing of which profiles exist. If the caller is the subject and
/// has no profile, the answer is `UserNotFound`. Otherwise it is the
/// subject's profile.
pub fn get_user(
    state: &AppState,
    caller: Result<ValidateTokenResponse, AppError>,
    user_id: &str,
) -> (r: Result<UserProfile, AppError>)
    ensures
        match owner_refusal(caller, user_id@, state.profiles()) {
            Some(e) => r == Err::<UserProfile, AppError>(e),
            None => {
                &&& r matches Ok(found)
                &&& found@ == state.profiles()[profile_index(state.profiles(), user_id@)]
            },
        },
{
    match check_owner(state, &caller, user_id) {
        Err(e) => Err(e),
        Ok(i) => Ok(state.stored()[i].clone()),
    }
}

} // verus!
