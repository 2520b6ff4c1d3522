//! Replies of the profile RPCs and the internal-token gate in front of them.
use vstd::prelude::*;
use crate::profile::{ProfileRow, Profile, to_proto, message_of};
use crate::status::{Code, Status, StoreError, status_is};

verus! {

/// The reply to a profile deletion.
#[derive(Debug)]
pub struct DeleteProfileResponse {
    pub success: bool,
}

/// Reply to a profile creation: any store failure means the profile exists already.
pub fn create_profile_reply(created: Result<ProfileRow, StoreError>) -> (r: Result<Profile, Status>)
    requires
        created is Ok ==> created->Ok_0.wf(),
    ensures
        match created {
            Ok(row) => r is Ok && message_of(r->Ok_0, row),
            Err(_) => r is Err && status_is(r->Err_0, Code::AlreadyExists, "profile already exists"@),
        },
{
    match created {
        Ok(row) => Ok(to_proto(row)),
        Err(_) => Err(Status::new(Code::AlreadyExists, "profile already exists")),
    }
}

/// Reply to a profile read or update: a store failure is internal, an absent
/// profile is not found, a present one is returned.
pub fn found_profile_reply(found: Result<Option<ProfileRow>, StoreError>) -> (r: Result<Profile, Status>)
    requires
        found matches Ok(Some(row)) ==> row.wf(),
    ensures
        match found {
            Ok(Some(row)) => r is Ok && message_of(r->Ok_0, row),
            Ok(None) => r is Err && status_is(r->Err_0, Code::NotFound, "profile not found"@),
            Err(_) => r is Err && status_is(r->Err_0, Code::Internal, "db error"@),
        },
{
    match found {
        Ok(Some(row)) => Ok(to_proto(row)),
        Ok(None) => Err(Status::new(Code::NotFound, "profile not found")),
        Err(_) => Err(Status::new(Code::Internal, "db error")),
    }
}

/// Reply to a profile deletion: success whenever the store did not fail,
/// whether or not a profile was there.
pub fn delete_profile_reply(deleted: Result<(), StoreError>) -> (r: Result<DeleteProfileResponse, Status>)
    ensures
        match deleted {
            Ok(()) => r is Ok && r->Ok_0.success,
            Err(_) => r is Err && status_is(r->Err_0, Code::Internal, "failed to delete profile"@),
        },
{
    match deleted {
        Ok(()) => Ok(DeleteProfileResponse { success: true }),
        Err(_) => Err(Status::new(Code::Internal, "failed to delete profile")),
    }
}

/// Admits an RPC when no internal token is configured, or when the request
/// presents exactly the configured token; refuses it as unauthenticated otherwise.
pub fn check_internal_token(expected: &String, presented: Option<String>) -> (r: Result<(), Status>)
    ensures
        r is Ok <==> (expected@.len() == 0 || (presented matches Some(t) && t@ == expected@)),
        r is Err ==> status_is(r->Err_0, Code::Unauthenticated, "missing or invalid internal service token"@),
{
    if expected.as_str().is_empty() {
        return Ok(());
    }
    match presented {
        Some(t) => {
            if t == *expected {
                Ok(())
            } else {
                Err(Status::new(Code::Unauthenticated, "missing or invalid internal service token"))
            }
        },
        None => Err(Status::new(Code::Unauthenticated, "missing or invalid internal service token")),
    }
}

} // verus!
