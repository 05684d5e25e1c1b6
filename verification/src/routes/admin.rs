//! Administration: services and user accounts.
use vstd::prelude::*;
use crate::models::{CreateServicePayload, CreateUserPayload};
use crate::password::{bcrypt_hash, default_cost_hash_form, password_accepted};
use crate::reply::{is_reply, reply, with_detail, TextReply, BAD_REQUEST, CREATED, INTERNAL_SERVER_ERROR, OK};
use crate::routes::auth::{login_granted, login_response_of, StoredAccount};
use crate::text::{lemma_trimmed_idempotent, to_uppercase, trim, trimmed, uppercase};
use bcrypt::BcryptError;

verus! {

// --- Services ---

/// The stored form of a service tag: the tag given, without surrounding
/// white space, in upper case, between square brackets.
pub open spec fn service_tag_text(tag: Seq<char>) -> Seq<char> {
    seq!['['] + uppercase(trimmed(tag)) + seq![']']
}

/// A service to be inserted.
#[derive(Clone, Debug)]
pub struct NewService {
    pub name: String,
    pub tag: String,
}

/// The stored form of a service tag (`format!("[{}]", tag.trim().to_uppercase())`).
pub fn service_tag(tag: &str) -> (r: String)
    ensures
        r@ == service_tag_text(tag@),
        r@ == seq!['['] + uppercase(trimmed(tag@)) + seq![']'],
{
    let trimmed_tag = trim(tag);
    let upper = to_uppercase(trimmed_tag.as_str());
    let mut r = "[".to_owned();
    r.append(upper.as_str());
    r.append("]");
    proof {
        reveal_strlit("[");
        reveal_strlit("]");
    }
    assert(r@ =~= service_tag_text(tag@));
    r
}

/// The service that a creation request inserts.
pub fn new_service(payload: &CreateServicePayload) -> (s: NewService)
    ensures
        s.name == payload.name,
        s.tag@ == service_tag_text(payload.tag@),
        s.tag@ == seq!['['] + uppercase(trimmed(payload.tag@)) + seq![']'],
{
    NewService { name: payload.name.clone(), tag: service_tag(payload.tag.as_str()) }
}

/// The answer once the service has been inserted, or the insertion has
/// failed with the given error text.
pub fn service_created_reply(inserted: Result<(), String>) -> (r: TextReply)
    ensures
        inserted is Ok ==> is_reply(r, CREATED, "Service créé avec succès"@),
        inserted matches Err(e) ==> is_reply(r, BAD_REQUEST, "Erreur : "@ + e@),
{
    match inserted {
        Ok(()) => reply(CREATED, "Service créé avec succès"),
        Err(e) => with_detail(BAD_REQUEST, "Erreur : ", e.as_str()),
    }
}

// --- User accounts ---

/// A user account to be inserted: it must change its password at its first
/// login.
#[derive(Clone, Debug)]
pub struct NewUser {
    pub service_id: Option<i64>,
    pub name: String,
    pub email: String,
    pub password_hash: String,
    pub role: String,
    pub user_tag: String,
    pub must_change_password: bool,
}

/// The hash of a temporary password, or `500` with `Erreur hash` where
/// hashing failed.
pub fn temporary_hash_outcome(hashed: Result<String, BcryptError>) -> (r: Result<String, TextReply>)
    ensures
        match hashed {
            Ok(h) => r == Ok::<String, TextReply>(h),
            Err(_) => r is Err && is_reply(r->Err_0, INTERNAL_SERVER_ERROR, "Erreur hash"@),
        },
{
    match hashed {
        Ok(h) => Ok(h),
        Err(_) => Err(reply(INTERNAL_SERVER_ERROR, "Erreur hash")),
    }
}

/// Hashes the temporary password of a new account.
pub fn hash_temporary_password(payload: &CreateUserPayload) -> (r: Result<String, TextReply>)
    ensures
        r matches Ok(h) ==> password_accepted(payload.password_temp@, h@),
        r matches Ok(h) ==> default_cost_hash_form(h@),
        r is Err ==> is_reply(r->Err_0, INTERNAL_SERVER_ERROR, "Erreur hash"@),
{
    temporary_hash_outcome(bcrypt_hash(payload.password_temp.as_str()))
}

/// The account that a creation request inserts, with the hash of its
/// temporary password and its colour tag.
pub fn new_user(payload: &CreateUserPayload, password_hash: String, user_tag: String) -> (u: NewUser)
    ensures
        u.service_id == payload.service_id,
        u.name == payload.name,
        u.email == payload.email,
        u.role == payload.role,
        u.password_hash == password_hash,
        u.user_tag == user_tag,
        u.must_change_password,
{
    NewUser {
        service_id: payload.service_id,
        name: payload.name.clone(),
        email: payload.email.clone(),
        password_hash,
        role: payload.role.clone(),
        user_tag,
        must_change_password: true,
    }
}

/// The answer once the account has been inserted, or the insertion has
/// failed with the given error text.
pub fn account_created_reply(inserted: Result<(), String>) -> (r: TextReply)
    ensures
        inserted is Ok ==> is_reply(r, CREATED, "Compte créé"@),
        inserted matches Err(e) ==> is_reply(r, BAD_REQUEST, "Erreur : "@ + e@),
{
    match inserted {
        Ok(()) => reply(CREATED, "Compte créé"),
        Err(e) => with_detail(BAD_REQUEST, "Erreur : ", e.as_str()),
    }
}

/// The answer once the account has been deleted (`deleted`) or the deletion
/// has failed.
pub fn user_deleted_reply(deleted: bool) -> (r: TextReply)
    ensures
        deleted ==> is_reply(r, OK, "Utilisateur supprimé"@),
        !deleted ==> is_reply(r, INTERNAL_SERVER_ERROR, "Erreur lors de la suppression"@),
{
    if deleted {
        reply(OK, "Utilisateur supprimé")
    } else {
        reply(INTERNAL_SERVER_ERROR, "Erreur lors de la suppression")
    }
}


/// The account as it reads back once `u` has been inserted under `user_id`.
pub open spec fn account_of_new_user(u: NewUser, user_id: i64) -> StoredAccount {
    StoredAccount {
        user_id,
        name: u.name,
        email: u.email,
        role: u.role,
        service_id: u.service_id,
        password_hash: u.password_hash,
        user_tag: u.user_tag,
        must_change_password: u.must_change_password,
    }
}

/// An account created by an administrator, with the hash of its temporary
/// password, opens with that password, and its first login asks for a
/// password change.
pub proof fn law_new_account_must_change_password(
    u: NewUser,
    password_temp: Seq<char>,
    user_id: i64,
)
    requires
        password_accepted(password_temp, u.password_hash@),
        u.must_change_password,
    ensures
        login_granted(Some(account_of_new_user(u, user_id)), password_temp),
        login_response_of(account_of_new_user(u, user_id)).must_change_password,
{
}

/// A service tag is the whole trimmed tag in upper case, with `[` before
/// it and `]` after it.
pub proof fn law_service_tag_is_the_whole_tag(tag: Seq<char>)
    ensures
        service_tag_text(tag).len() == uppercase(trimmed(tag)).len() + 2,
        service_tag_text(tag)[0] == '[',
        service_tag_text(tag)[service_tag_text(tag).len() - 1] == ']',
        service_tag_text(tag).subrange(1, service_tag_text(tag).len() - 1) == uppercase(
            trimmed(tag),
        ),
{
    assert(service_tag_text(tag).subrange(1, service_tag_text(tag).len() - 1) =~= uppercase(
        trimmed(tag),
    ));
}

/// Surrounding white space does not change a service tag.
pub proof fn law_service_tag_ignores_padding(tag: Seq<char>)
    ensures
        service_tag_text(trimmed(tag)) == service_tag_text(tag),
{
    lemma_trimmed_idempotent(tag);
}

} // verus!
