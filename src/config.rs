//! The check on the credentials a search needs.
use vstd::prelude::*;
use crate::error::AppError;

verus! {

/// `r` is a configuration error with the message `m`.
pub open spec fn config_error(r: Result<(), AppError>, m: Seq<char>) -> bool {
    r matches Err(AppError::Config(s)) && s@ == m
}

/// Checks the API key and the application key as read from the environment
/// (`None` where the variable is not set): both must be set, then both must
/// be non-empty, the API key checked first each time.
pub fn check_credentials(api_key: Option<&str>, app_key: Option<&str>) -> (r: Result<(), AppError>)
    ensures
        api_key is None ==> config_error(r, "DD_API_KEY environment variable not set"@),
        api_key is Some && app_key is None ==> config_error(
            r,
            "DD_APP_KEY environment variable not set"@,
        ),
        api_key matches Some(a) && app_key is Some && a@.len() == 0 ==> config_error(
            r,
            "DD_API_KEY is empty"@,
        ),
        api_key matches Some(a) && app_key matches Some(b) && a@.len() > 0 && b@.len() == 0
            ==> config_error(r, "DD_APP_KEY is empty"@),
        api_key matches Some(a) && app_key matches Some(b) && a@.len() > 0 && b@.len() > 0
            ==> r is Ok,
{
    match (api_key, app_key) {
        (None, _) => Err(AppError::Config("DD_API_KEY environment variable not set".to_owned())),
        (Some(_), None) => Err(
            AppError::Config("DD_APP_KEY environment variable not set".to_owned()),
        ),
        (Some(a), Some(b)) => {
            if a.is_empty() {
                Err(AppError::Config("DD_API_KEY is empty".to_owned()))
            } else if b.is_empty() {
                Err(AppError::Config("DD_APP_KEY is empty".to_owned()))
            } else {
                Ok(())
            }
        },
    }
}

} // verus!
