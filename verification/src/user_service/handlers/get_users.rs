//! Reading all profiles.
use vstd::prelude::*;
use crate::user_service::error::AppError;
use crate::user_service::models::UserProfile;
use crate::user_service::models::ValidateTokenResponse;
use crate::user_service::state::AppState;

verus! {

/// Reads all profiles, oldest first.
///
/// `caller` is what the authentication of the request arrived at. If that
/// is a failure, the answer is that failure.
pub fn get_users(state: &AppState, caller: Result<ValidateTokenResponse, AppError>) -> (r: Result<
    Vec<UserProfile>,
    AppError,
>)
    ensures
        match caller {
            Err(e) => r == Err::<Vec<UserProfile>, AppError>(e),
            Ok(_) => r matches Ok(all) && all@.map_values(|p: UserProfile| p@) == state.profiles(),
        },
{
    if let Err(e) = caller {
        return Err(e);
    }
    let stored = state.stored();
    let n: usize = stored.len();
    let mut all: Vec<UserProfile> = Vec::new();
    let mut i: usize = 0;
    while i < n
        invariant
            i <= n,
            n == stored@.len(),
            all@ == stored@.subrange(0, i as int),
        decreases n - i,
    {
        all.push(stored[i].clone());
        i += 1;
    }
    Ok(all)
}

} // verus!
