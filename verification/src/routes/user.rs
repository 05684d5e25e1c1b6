//! Users filing shift requests.
use vstd::prelude::*;
use crate::models::CreateShiftRequestPayload;
use crate::reply::{is_reply, reply, TextReply, BAD_REQUEST, CREATED};

verus! {

/// The status of a shift request that no manager has decided on yet.
pub open spec fn pending_status() -> Seq<char> {
    "En attente"@
}

/// A shift request to be inserted.
#[derive(Clone, Debug)]
pub struct NewShiftRequest {
    pub user_id: i64,
    pub service_id: i64,
    pub period_type: String,
    pub start_date: String,
    pub status: String,
}

/// The shift request that a user files: the block asked for, pending.
pub fn new_shift_request(payload: &CreateShiftRequestPayload) -> (r: NewShiftRequest)
    ensures
        r.user_id == payload.user_id,
        r.service_id == payload.service_id,
        r.period_type == payload.period_type,
        r.start_date == payload.start_date,
        r.status@ == pending_status(),
{
    NewShiftRequest {
        user_id: payload.user_id,
        service_id: payload.service_id,
        period_type: payload.period_type.clone(),
        start_date: payload.start_date.clone(),
        status: "En attente".to_owned(),
    }
}

/// The answer once the request has been inserted (`inserted`), or refused
/// by the database, which holds one request per user and block.
pub fn shift_request_filed_reply(inserted: bool) -> (r: TextReply)
    ensures
        inserted ==> is_reply(r, CREATED, "Demande enregistrée"@),
        !inserted ==> is_reply(r, BAD_REQUEST, "Demande déjà existante pour ce bloc"@),
{
    if inserted {
        reply(CREATED, "Demande enregistrée")
    } else {
        reply(BAD_REQUEST, "Demande déjà existante pour ce bloc")
    }
}

} // verus!
