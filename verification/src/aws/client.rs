//! Checking that the cloud account can be used.

use crate::error::{AppError, ErrorView};
use crate::text::join2;
use vstd::prelude::*;
use vstd::string::*;

verus! {

/// The complaint about credentials that the account refused with `why`.
pub open spec fn credentials_refused(why: Seq<char>) -> ErrorView {
    ErrorView::Aws(
        "Failed to validate AWS credentials: "@ + why + ". Please check your AWS configuration."@,
    )
}

/// The result of connecting, given what the account answered to a first
/// harmless request: `None` when it took it, else its complaint.
pub fn credentials_result(refusal: Option<String>) -> (result: Result<(), AppError>)
    ensures
        refusal is None ==> result is Ok,
        refusal matches Some(why) ==> result matches Err(error) && error@ == credentials_refused(
            why@,
        ),
{
    match refusal {
        None => Ok(()),
        Some(why) => {
            let mut text = join2("Failed to validate AWS credentials: ", why.as_str());
            text.append(". Please check your AWS configuration.");
            Err(AppError::Aws(text))
        },
    }
}

} // verus!
