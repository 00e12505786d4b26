use vstd::prelude::*;

use crate::error::FetchError;

verus! {

/// A GraphQL response reports errors when its error list is present and not empty.
pub open spec fn reports_errors(errors: Option<Vec<String>>) -> bool {
    errors matches Some(es) && es@.len() > 0
}

/// Reads a GraphQL response envelope: errors win over data, and a response
/// with neither is empty.
pub fn decode_response<R>(data: Option<R>, errors: &Option<Vec<String>>) -> (r: Result<
    R,
    FetchError,
>)
    ensures
        reports_errors(*errors) ==> r == Err::<R, FetchError>(FetchError::ResponseContainsErrors),
        !reports_errors(*errors) && data is None ==> r == Err::<R, FetchError>(
            FetchError::ResponseEmpty,
        ),
        !reports_errors(*errors) && data is Some ==> r == Ok::<R, FetchError>(data->0),
{
    let has_errors = match errors {
        Some(es) => es.len() > 0,
        None => false,
    };
    if has_errors {
        Err(FetchError::ResponseContainsErrors)
    } else {
        match data {
            Some(d) => Ok(d),
            None => Err(FetchError::ResponseEmpty),
        }
    }
}

} // verus!
