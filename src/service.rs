use vstd::prelude::*;
use crate::contact::{Contact, UpdateContact, merged};
use crate::error::ApiError;
use crate::error::status_of;
use crate::repository::{Error, ErrorKind, invalid_id_message, is_invalid_id_error};

verus! {

/// The API error that a repository error becomes: a rejected argument is the
/// caller's fault and keeps its message; anything else is an internal failure.
pub open spec fn api_error_of(e: Error) -> ApiError {
    match e.kind {
        ErrorKind::InvalidArgument { message } => ApiError::BadRequest(message),
        _ => ApiError::InternalServer,
    }
}

/// The message of the error for a contact that is not in the store.
pub open spec fn not_found_message() -> Seq<char> {
    "Contact not found"@
}

pub open spec fn is_not_found(r: ApiError) -> bool {
    &&& r is NotFound
    &&& r->NotFound_0@ == not_found_message()
}

pub fn handle_errors(error: Error) -> (r: ApiError)
    ensures
        r == api_error_of(error),
{
    match error.kind {
        ErrorKind::InvalidArgument { message } => ApiError::BadRequest(message),
        _ => ApiError::InternalServer,
    }
}

fn contact_not_found() -> (r: ApiError)
    ensures
        is_not_found(r),
{
    ApiError::NotFound("Contact not found".to_owned())
}

/// The answer to a read by identifier: a contact that is not there is an error
/// at this level.
pub fn find_one_outcome(looked_up: Result<Option<Contact>, Error>) -> (r: Result<Contact, ApiError>)
    ensures
        looked_up matches Ok(Some(c)) ==> r == Ok::<Contact, ApiError>(c),
        looked_up matches Ok(None) ==> r matches Err(e) && is_not_found(e),
        looked_up matches Err(e) ==> r == Err::<Contact, ApiError>(api_error_of(e)),
{
    match looked_up {
        Ok(Some(c)) => Ok(c),
        Ok(None) => Err(contact_not_found()),
        Err(e) => Err(handle_errors(e)),
    }
}

/// The identifier to read back after an insert, or the insert's error.
pub fn create_outcome(created: Result<String, Error>) -> (r: Result<String, ApiError>)
    ensures
        created matches Ok(id) ==> r == Ok::<String, ApiError>(id),
        created matches Err(e) ==> r == Err::<String, ApiError>(api_error_of(e)),
{
    match created {
        Ok(id) => Ok(id),
        Err(e) => Err(handle_errors(e)),
    }
}

/// The contact to write for an update: the stored one with the patch applied.
pub fn update_merge(existing: Result<Contact, ApiError>, patch: UpdateContact) -> (r: Result<
    Contact,
    ApiError,
>)
    ensures
        existing matches Ok(c) ==> r == Ok::<Contact, ApiError>(merged(c, patch)),
        existing matches Err(e) ==> r == Err::<Contact, ApiError>(e),
{
    match existing {
        Ok(mut c) => {
            c.update(patch);
            Ok(c)
        },
        Err(e) => Err(e),
    }
}

/// The answer to an update, given the repository's read after the write: a
/// contact that vanished between the two is an internal failure.
pub fn update_outcome(updated: Result<Option<Contact>, Error>) -> (r: Result<Contact, ApiError>)
    ensures
        updated matches Ok(Some(c)) ==> r == Ok::<Contact, ApiError>(c),
        updated matches Ok(None) ==> r == Err::<Contact, ApiError>(ApiError::InternalServer),
        updated matches Err(e) ==> r == Err::<Contact, ApiError>(api_error_of(e)),
{
    match updated {
        Ok(Some(c)) => Ok(c),
        Ok(None) => Err(ApiError::InternalServer),
        Err(e) => Err(handle_errors(e)),
    }
}

/// The answer to a delete, given the repository's outcome.
pub fn delete_outcome(deleted: Result<(), Error>) -> (r: Result<(), ApiError>)
    ensures
        deleted is Ok ==> r is Ok,
        deleted matches Err(e) ==> r == Err::<(), ApiError>(api_error_of(e)),
{
    match deleted {
        Ok(()) => Ok(()),
        Err(e) => Err(handle_errors(e)),
    }
}

/// A malformed identifier reaches the caller as a bad request that carries the
/// codec's message, never as an internal failure or a missing contact.
pub proof fn lemma_malformed_id_is_bad_request(e: Error)
    requires
        is_invalid_id_error(e),
    ensures
        api_error_of(e) is BadRequest,
        api_error_of(e)->BadRequest_0@ == invalid_id_message(),
        status_of(api_error_of(e)) == 400,
{
}

} // verus!
