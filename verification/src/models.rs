//! The records the service stores and the bodies its requests carry.
use vstd::prelude::*;

verus! {

// --- Services ---

/// A service (a team that takes on-call duty), with its short tag.
#[derive(Clone, Debug, PartialEq, Eq)]
pub struct Service {
    pub service_id: i64,
    pub name: String,
    pub tag: String,
}

/// Body of a request that creates a service.
#[derive(Clone, Debug, PartialEq, Eq)]
pub struct CreateServicePayload {
    pub name: String,
    pub tag: String,
}

// --- Users ---

/// A user account, without its password hash.
#[derive(Clone, Debug, PartialEq, Eq)]
pub struct User {
    pub user_id: i64,
    pub service_id: Option<i64>,
    pub name: String,
    pub email: String,
    pub role: String,
    pub user_tag: String,
    pub must_change_password: bool,
}

/// A user as listed for administrators, with the name of the service.
#[derive(Clone, Debug, PartialEq, Eq)]
pub struct UserSummary {
    pub user_id: i64,
    pub name: String,
    pub email: String,
    pub role: String,
    pub service_name: Option<String>,
    pub user_tag: String,
}

/// Body of a request that creates a user account with a temporary password.
#[derive(Clone, Debug, PartialEq, Eq)]
pub struct CreateUserPayload {
    pub name: String,
    pub email: String,
    pub role: String,
    pub service_id: Option<i64>,
    pub password_temp: String,
}

/// Body of a login request.
#[derive(Clone, Debug, PartialEq, Eq)]
pub struct LoginPayload {
    pub email: String,
    pub password: String,
}

/// What a successful login answers.
#[derive(Clone, Debug, PartialEq, Eq)]
pub struct LoginResponse {
    pub user_id: i64,
    pub name: String,
    pub email: String,
    pub role: String,
    pub service_id: Option<i64>,
    pub user_tag: String,
    pub must_change_password: bool,
}

/// Body of a request that changes a user's password.
#[derive(Clone, Debug, PartialEq, Eq)]
pub struct ChangePasswordPayload {
    pub email: String,
    pub old_password: String,
    pub new_password: String,
}

// --- Shift requests (by block) ---

/// A request by a user to be on call for one block (a week or a weekend)
/// of a service; `period_type` is `Semaine` or `Weekend`, `start_date` is
/// written `YYYY-MM-DD`.
#[derive(Clone, Debug, PartialEq, Eq)]
pub struct ShiftRequest {
    pub request_id: i64,
    pub user_id: i64,
    pub service_id: i64,
    pub period_type: String,
    pub start_date: String,
    pub status: String,
}

/// Body of a request that files a shift request.
#[derive(Clone, Debug, PartialEq, Eq)]
pub struct CreateShiftRequestPayload {
    pub user_id: i64,
    pub service_id: i64,
    pub period_type: String,
    pub start_date: String,
}

/// Body of a request that sets the status of a shift request
/// (`Validée` or `Refusée`).
#[derive(Clone, Debug, PartialEq, Eq)]
pub struct UpdateShiftStatusPayload {
    pub request_id: i64,
    pub new_status: String,
}

/// A shift request as listed for a service, with its user's tag and name.
#[derive(Clone, Debug, PartialEq, Eq)]
pub struct ShiftResponse {
    pub request_id: i64,
    pub user_id: i64,
    pub service_id: i64,
    pub period_type: String,
    pub start_date: String,
    pub status: String,
    pub user_tag: String,
    pub user_name: String,
}

} // verus!
