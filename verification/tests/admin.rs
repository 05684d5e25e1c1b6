use astreinte::models::{CreateServicePayload, CreateUserPayload};
use astreinte::password::check_password;
use astreinte::reply::listing_or_db_error;
use astreinte::routes::admin::{
    account_created_reply, hash_temporary_password, new_service, new_user, service_created_reply,
    service_tag, temporary_hash_outcome, user_deleted_reply,
};
use astreinte::routes::auth::{decide_login, StoredAccount};

#[test]
fn service_tags_are_trimmed_upper_case_in_brackets() {
    assert_eq!(service_tag("ssi"), "[SSI]");
    assert_eq!(service_tag("  réseau \t"), "[RÉSEAU]");
    assert_eq!(service_tag(""), "[]");
    assert_eq!(service_tag("straße"), "[STRASSE]");
}

#[test]
fn service_tags_ignore_padding() {
    assert_eq!(service_tag("  infra  "), service_tag("infra"));
}

#[test]
fn new_service_keeps_the_name() {
    let p = CreateServicePayload { name: "Sécurité".to_string(), tag: " ssi".to_string() };
    let s = new_service(&p);
    assert_eq!(s.name, "Sécurité");
    assert_eq!(s.tag, "[SSI]");
}

#[test]
fn service_created_replies() {
    let ok = service_created_reply(Ok(()));
    assert_eq!((ok.status, ok.message.as_str()), (201, "Service créé avec succès"));
    let err = service_created_reply(Err("UNIQUE constraint failed".to_string()));
    assert_eq!((err.status, err.message.as_str()), (400, "Erreur : UNIQUE constraint failed"));
}

fn payload() -> CreateUserPayload {
    CreateUserPayload {
        name: "Jean Dupont".to_string(),
        email: "jean@example.org".to_string(),
        role: "manager".to_string(),
        service_id: Some(3),
        password_temp: "Bienvenue1".to_string(),
    }
}

#[test]
fn new_account_opens_with_its_temporary_password_and_must_change_it() {
    let p = payload();
    let h = hash_temporary_password(&p).unwrap();
    assert!(check_password("Bienvenue1", &h));
    let u = new_user(&p, h, "#33CC66".to_string());
    assert_eq!(u.service_id, Some(3));
    assert_eq!(u.name, "Jean Dupont");
    assert_eq!(u.email, "jean@example.org");
    assert_eq!(u.role, "manager");
    assert_eq!(u.user_tag, "#33CC66");
    assert!(u.must_change_password);
    let stored = StoredAccount {
        user_id: 1,
        name: u.name,
        email: u.email,
        role: u.role,
        service_id: u.service_id,
        password_hash: u.password_hash,
        user_tag: u.user_tag,
        must_change_password: u.must_change_password,
    };
    let r = decide_login(Some(stored), "Bienvenue1").unwrap();
    assert!(r.must_change_password);
}

#[test]
fn temporary_hash_failure() {
    let err = temporary_hash_outcome(Err(bcrypt::BcryptError::CostNotAllowed(40))).unwrap_err();
    assert_eq!((err.status, err.message.as_str()), (500, "Erreur hash"));
    assert_eq!(temporary_hash_outcome(Ok("h".to_string())).unwrap(), "h");
}

#[test]
fn account_and_deletion_replies() {
    let ok = account_created_reply(Ok(()));
    assert_eq!((ok.status, ok.message.as_str()), (201, "Compte créé"));
    let err = account_created_reply(Err("boom".to_string()));
    assert_eq!((err.status, err.message.as_str()), (400, "Erreur : boom"));
    let d = user_deleted_reply(true);
    assert_eq!((d.status, d.message.as_str()), (200, "Utilisateur supprimé"));
    let d = user_deleted_reply(false);
    assert_eq!((d.status, d.message.as_str()), (500, "Erreur lors de la suppression"));
}

#[test]
fn listings() {
    assert_eq!(listing_or_db_error(Some(vec![1, 2])).unwrap(), vec![1, 2]);
    let err = listing_or_db_error::<u8>(None).unwrap_err();
    assert_eq!((err.status, err.message.as_str()), (500, "Erreur BDD"));
}

#[test]
fn temporary_password_is_stored_only_as_a_hash() {
    let p = payload();
    let h = hash_temporary_password(&p).unwrap();
    assert_eq!(h.chars().count(), 60);
    assert!(h.starts_with("$2b$12$"));
    assert!(h.is_ascii());
    assert_ne!(h, p.password_temp);
}
