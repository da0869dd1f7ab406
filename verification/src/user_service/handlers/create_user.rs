//! Creating a profile.
use vstd::prelude::*;
use crate::clock::rfc3339_now;
use crate::user_service::error::AppError;
use crate::user_service::models::CreateProfileRequest;
use crate::user_service::models::UserProfile;
use crate::user_service::models::UserProfileView;
use crate::user_service::models::ValidateTokenResponse;
use crate::user_service::state::AppState;
use crate::user_service::state::has_profile;

verus! {

/// The answer to a creation that went through.
#[derive(Debug, Clone, PartialEq, Eq)]
pub struct CreateProfileResponse {
    pub user_id: String,
    pub message: String,
}

/// The model of [`CreateProfileResponse`].
pub struct CreateProfileResponseView {
    pub user_id: Seq<char>,
    pub message: Seq<char>,
}

impl View for CreateProfileResponse {
    type V = CreateProfileResponseView;

    open spec fn view(&self) -> CreateProfileResponseView {
        CreateProfileResponseView { user_id: self.user_id@, message: self.message@ }
    }
}

/// The profile that `req` asks for, stamped with `created_at`.
pub open spec fn requested_profile(
    req: CreateProfileRequest,
    created_at: Seq<char>,
) -> UserProfileView {
    UserProfileView {
        user_id: req.user_id@,
        username: req.username@,
        email: req.email@,
        full_name: req.full_name@,
        bio: req.bio@,
        created_at,
    }
}

/// Creates the profile that `req` asks for and stamps it with `created_at`.
///
/// `caller` is what the authentication of the request arrived at. If that
/// is a failure, the answer is that failure. If a profile of the same
/// subject exists, the answer is `UserAlreadyExists`. Nothing changes in
/// either case. Otherwise the profile is added after the others.
pub fn create_user_at(
    state: &mut AppState,
    caller: Result<ValidateTokenResponse, AppError>,
    req: CreateProfileRequest,
    created_at: String,
) -> (r: Result<CreateProfileResponse, AppError>)
    ensures
        final(state).auth_service_url() == old(state).auth_service_url(),
        match caller {
            Err(e) => {
                &&& r == Err::<CreateProfileResponse, AppError>(e)
                &&& final(state).profiles() == old(state).profiles()
            },
            Ok(_) => if has_profile(old(state).profiles(), req.user_id@) {
                &&& r == Err::<CreateProfileResponse, AppError>(AppError::UserAlreadyExists)
                &&& final(state).profiles() == old(state).profiles()
            } else {
                &&& r matches Ok(response)
                &&& response.user_id@ == req.user_id@
                &&& response.message@ == "Profile created successfully"@
                &&& final(state).profiles() == old(state).profiles().push(
                    requested_profile(req, created_at@),
                )
            },
        },
{
    if let Err(e) = caller {
        return Err(e);
    }
    if state.position(req.user_id.as_str()).is_some() {
        return Err(AppError::UserAlreadyExists);
    }
    let profile = UserProfile {
        user_id: req.user_id.clone(),
        username: req.username,
        email: req.email,
        full_name: req.full_name,
        bio: req.bio,
        created_at,
    };
    state.add_profile(profile);
    Ok(
        CreateProfileResponse {
            user_id: req.user_id,
            message: "Profile created successfully".to_owned(),
        },
    )
}

/// Creates the profile that `req` asks for and stamps it with the time the
/// wall clock shows.
///
/// The answer and the change are those of [`create_user_at`] for some
/// stamp.
pub fn create_user(
    state: &mut AppState,
    caller: Result<ValidateTokenResponse, AppError>,
    req: CreateProfileRequest,
) -> (r: Result<CreateProfileResponse, AppError>)
    ensures
        final(state).auth_service_url() == old(state).auth_service_url(),
        match caller {
            Err(e) => {
                &&& r == Err::<CreateProfileResponse, AppError>(e)
                &&& final(state).profiles() == old(state).profiles()
            },
            Ok(_) => if has_profile(old(state).profiles(), req.user_id@) {
                &&& r == Err::<CreateProfileResponse, AppError>(AppError::UserAlreadyExists)
                &&& final(state).profiles() == old(state).profiles()
            } else {
                &&& r matches Ok(response)
                &&& response.user_id@ == req.user_id@
                &&& response.message@ == "Profile created successfully"@
                &&& exists|created_at: Seq<char>|
                    final(state).profiles() == old(state).profiles().push(
                        #[trigger] requested_profile(req, created_at),
                    )
            },
        },
{
    let created_at = rfc3339_now();
    create_user_at(state, caller, req, created_at)
}

} // verus!
