//! The request handlers' decisions, one module per area of the service.
//!
//! This module itself holds the general handlers: account creation by
//! e-mail, a login that answers a status label with the user's name and
//! role, a password change that answers the name and role, and the
//! `requests` table, where users leave their on-call preferences for a date.
pub mod admin;
pub mod auth;
pub mod manager;
pub mod user;

use vstd::prelude::*;
use crate::models::{ChangePasswordPayload, CreateUserPayload};
use crate::password::{bcrypt_hash, check_password, default_cost_hash_form, password_accepted};
use crate::reply::{
    is_reply, reply, with_detail, Lookup, TextReply, BAD_REQUEST, CREATED, INTERNAL_SERVER_ERROR,
    NOT_FOUND, OK, UNAUTHORIZED,
};
use crate::routes::auth::{password_change_result, rehash_outcome, PasswordUpdate};
use bcrypt::BcryptError;

verus! {

// --- Account creation ---

/// An account to be inserted by e-mail address; it must change its password
/// at its first login.
#[derive(Clone, Debug)]
pub struct NewAccount {
    pub name: String,
    pub role: String,
    pub email: String,
    pub password_hash: String,
    pub must_change_password: bool,
}

/// The hash of the password of a new account, or `500` with `Erreur
/// serveur` where hashing failed.
pub fn account_hash_outcome(hashed: Result<String, BcryptError>) -> (r: Result<String, TextReply>)
    ensures
        match hashed {
            Ok(h) => r == Ok::<String, TextReply>(h),
            Err(_) => r is Err && is_reply(r->Err_0, INTERNAL_SERVER_ERROR, "Erreur serveur"@),
        },
{
    match hashed {
        Ok(h) => Ok(h),
        Err(_) => Err(reply(INTERNAL_SERVER_ERROR, "Erreur serveur")),
    }
}

/// Hashes the temporary password of a new account.
pub fn hash_account_password(payload: &CreateUserPayload) -> (r: Result<String, TextReply>)
    ensures
        r matches Ok(h) ==> password_accepted(payload.password_temp@, h@),
        r matches Ok(h) ==> default_cost_hash_form(h@),
        r is Err ==> is_reply(r->Err_0, INTERNAL_SERVER_ERROR, "Erreur serveur"@),
{
    account_hash_outcome(bcrypt_hash(payload.password_temp.as_str()))
}

/// The account that a creation request inserts, with the hash of its
/// temporary password.
pub fn new_account(payload: &CreateUserPayload, password_hash: String) -> (a: NewAccount)
    ensures
        a.name == payload.name,
        a.role == payload.role,
        a.email == payload.email,
        a.password_hash == password_hash,
        a.must_change_password,
{
    NewAccount {
        name: payload.name.clone(),
        role: payload.role.clone(),
        email: payload.email.clone(),
        password_hash,
        must_change_password: true,
    }
}

/// The answer once the account has been inserted, or the insertion has
/// failed with the given error text.
pub fn account_inserted_reply(inserted: Result<(), String>) -> (r: TextReply)
    ensures
        inserted is Ok ==> is_reply(r, CREATED, "Utilisateur créé avec succès"@),
        inserted matches Err(e) ==> is_reply(r, BAD_REQUEST, "Erreur DB : "@ + e@),
{
    match inserted {
        Ok(()) => reply(CREATED, "Utilisateur créé avec succès"),
        Err(e) => with_detail(BAD_REQUEST, "Erreur DB : ", e.as_str()),
    }
}

// --- Login answering a status label ---

/// An account as read for this login.
#[derive(Clone, Debug)]
pub struct LoginRecord {
    pub user_id: i64,
    pub name: String,
    pub role: String,
    pub password_hash: String,
    pub must_change_password: i64,
}

/// What this login answers: `REQUIRES_PASSWORD_CHANGE` or `OK`, with the
/// user's name and role.
#[derive(Clone, Debug)]
pub struct LoginSummary {
    pub status: String,
    pub name: String,
    pub role: String,
}

/// The status label of a granted login: `REQUIRES_PASSWORD_CHANGE` when the
/// must-change flag is `1`, `OK` otherwise.
pub open spec fn login_status_label(must_change_password: i64) -> Seq<char> {
    if must_change_password == 1 {
        "REQUIRES_PASSWORD_CHANGE"@
    } else {
        "OK"@
    }
}

/// The status label of a granted login.
pub fn status_label(must_change_password: i64) -> (s: String)
    ensures
        s@ == login_status_label(must_change_password),
{
    if must_change_password == 1 {
        "REQUIRES_PASSWORD_CHANGE".to_owned()
    } else {
        "OK".to_owned()
    }
}

/// The answer to this login: `500` with `Erreur serveur` when the read
/// failed, `404` with `Utilisateur introuvable` when there is no account,
/// `401` with `Mot de passe incorrect` when the password does not match, the
/// summary otherwise.
pub fn decide_summary_login(account: Lookup<LoginRecord>, password: &str) -> (r: Result<
    LoginSummary,
    TextReply,
>)
    ensures
        match account {
            Lookup::Found(a) => if password_accepted(password@, a.password_hash@) {
                r matches Ok(s) && s.status@ == login_status_label(a.must_change_password)
                    && s.name == a.name && s.role == a.role
            } else {
                r is Err && is_reply(r->Err_0, UNAUTHORIZED, "Mot de passe incorrect"@)
            },
            Lookup::Missing => r is Err && is_reply(
                r->Err_0,
                NOT_FOUND,
                "Utilisateur introuvable"@,
            ),
            Lookup::Failed => r is Err && is_reply(r->Err_0, INTERNAL_SERVER_ERROR, "Erreur serveur"@),
        },
{
    match account {
        Lookup::Found(a) => {
            if check_password(password, a.password_hash.as_str()) {
                Ok(
                    LoginSummary {
                        status: status_label(a.must_change_password),
                        name: a.name,
                        role: a.role,
                    },
                )
            } else {
                Err(reply(UNAUTHORIZED, "Mot de passe incorrect"))
            }
        },
        Lookup::Missing => Err(reply(NOT_FOUND, "Utilisateur introuvable")),
        Lookup::Failed => Err(reply(INTERNAL_SERVER_ERROR, "Erreur serveur")),
    }
}

// --- Password change answering the name and role ---

/// An account as read for this password change.
#[derive(Clone, Debug)]
pub struct ProfileRecord {
    pub name: String,
    pub role: String,
    pub password_hash: String,
}

/// The name and role that a completed password change answers.
#[derive(Clone, Debug)]
pub struct Profile {
    pub name: String,
    pub role: String,
}

/// Decides this password change: `500` with `Erreur de base de données`
/// when the read failed, and otherwise as the account password change
/// decides on the stored hash.
pub fn plan_profile_password_change(
    account: Lookup<ProfileRecord>,
    payload: &ChangePasswordPayload,
) -> (r: Result<PasswordUpdate, TextReply>)
    ensures
        match account {
            Lookup::Found(a) => password_change_result(Some(a.password_hash), *payload, r),
            Lookup::Missing => password_change_result(None, *payload, r),
            Lookup::Failed => r is Err && is_reply(
                r->Err_0,
                INTERNAL_SERVER_ERROR,
                "Erreur de base de données"@,
            ),
        },
{
    match account {
        Lookup::Found(a) => {
            if !check_password(payload.old_password.as_str(), a.password_hash.as_str()) {
                return Err(reply(UNAUTHORIZED, "Ancien mot de passe incorrect"));
            }
            rehash_outcome(&payload.email, bcrypt_hash(payload.new_password.as_str()))
        },
        Lookup::Missing => Err(reply(NOT_FOUND, "Utilisateur introuvable")),
        Lookup::Failed => Err(reply(INTERNAL_SERVER_ERROR, "Erreur de base de données")),
    }
}

/// The answer once the update has been written (`updated`): the name and
/// role of the account, or `500` with `Erreur lors de la mise à jour`.
pub fn profile_change_reply(account: ProfileRecord, updated: bool) -> (r: Result<Profile, TextReply>)
    ensures
        updated ==> (r matches Ok(p) && p.name == account.name && p.role == account.role),
        !updated ==> r is Err && is_reply(
            r->Err_0,
            INTERNAL_SERVER_ERROR,
            "Erreur lors de la mise à jour"@,
        ),
{
    if updated {
        Ok(Profile { name: account.name, role: account.role })
    } else {
        Err(reply(INTERNAL_SERVER_ERROR, "Erreur lors de la mise à jour"))
    }
}

// --- On-call preferences ---

/// Body of a request that leaves an on-call preference.
#[derive(Clone, Debug, PartialEq, Eq)]
pub struct CreateRequestPayload {
    pub user_email: String,
    pub date: String,
    pub shift_type: String,
    pub preference: String,
}

/// Body of a request that sets the status of a preference.
#[derive(Clone, Debug, PartialEq, Eq)]
pub struct UpdateRequestPayload {
    pub request_id: i64,
    pub new_status: String,
}

/// A preference as stored.
#[derive(Clone, Debug, PartialEq, Eq)]
pub struct PreferenceRequest {
    pub request_id: i64,
    pub user_email: String,
    pub date: String,
    pub shift_type: String,
    pub preference: String,
    pub status: String,
}

/// A preference to be inserted.
#[derive(Clone, Debug)]
pub struct NewPreference {
    pub user_email: String,
    pub date: String,
    pub shift_type: String,
    pub preference: String,
    pub status: String,
}

/// The preference that a request inserts: as given, pending (`En attente`).
pub fn new_preference(payload: &CreateRequestPayload) -> (p: NewPreference)
    ensures
        p.user_email == payload.user_email,
        p.date == payload.date,
        p.shift_type == payload.shift_type,
        p.preference == payload.preference,
        p.status@ == "En attente"@,
{
    NewPreference {
        user_email: payload.user_email.clone(),
        date: payload.date.clone(),
        shift_type: payload.shift_type.clone(),
        preference: payload.preference.clone(),
        status: "En attente".to_owned(),
    }
}

/// The answer once the preference has been inserted (`inserted`) or the
/// insertion has failed.
pub fn preference_inserted_reply(inserted: bool) -> (r: TextReply)
    ensures
        inserted ==> is_reply(r, CREATED, "Demande enregistrée avec succès"@),
        !inserted ==> is_reply(r, INTERNAL_SERVER_ERROR, "Erreur d'écriture en base"@),
{
    if inserted {
        reply(CREATED, "Demande enregistrée avec succès")
    } else {
        reply(INTERNAL_SERVER_ERROR, "Erreur d'écriture en base")
    }
}

/// The stored preferences, or `500` with `Erreur de lecture de la base`
/// where the read failed (`None`).
pub fn preferences_listing(read: Option<Vec<PreferenceRequest>>) -> (r: Result<
    Vec<PreferenceRequest>,
    TextReply,
>)
    ensures
        match read {
            Some(rows) => r == Ok::<Vec<PreferenceRequest>, TextReply>(rows),
            None => r is Err && is_reply(
                r->Err_0,
                INTERNAL_SERVER_ERROR,
                "Erreur de lecture de la base"@,
            ),
        },
{
    match read {
        Some(rows) => Ok(rows),
        None => Err(reply(INTERNAL_SERVER_ERROR, "Erreur de lecture de la base")),
    }
}

/// The answer once the status of a preference has been written (`written`)
/// or the write has failed.
pub fn preference_status_reply(written: bool) -> (r: TextReply)
    ensures
        written ==> is_reply(r, OK, "Statut mis à jour"@),
        !written ==> is_reply(r, INTERNAL_SERVER_ERROR, "Erreur de mise à jour"@),
{
    if written {
        reply(OK, "Statut mis à jour")
    } else {
        reply(INTERNAL_SERVER_ERROR, "Erreur de mise à jour")
    }
}

} // verus!
